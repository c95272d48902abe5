//! From the answer of the token endpoint to the credential, or to the reason why there is none.
use vstd::prelude::*;

use crate::issue::CredentialError;
use crate::issue::Refusal;
use crate::outside::now_rfc3339;
use crate::outside::parse_json_object;
use crate::outside::status_text;
use crate::str_map::StrMap;
use crate::text::same_text;

verus! {

/// A token response of RFC 8693 section 2.2.1.
#[derive(Debug, PartialEq)]
pub struct TokenExchangeResponse {
    pub access_token: String,
    pub token_type: String,
    pub expires_in: Option<u64>,
    pub issued_token_type: Option<String>,
}

/// What a [`TokenExchangeResponse`] holds.
pub struct TokenAnswer {
    pub access_token: Seq<char>,
    pub token_type: Seq<char>,
    pub expires_in: Option<u64>,
    pub issued_token_type: Option<Seq<char>>,
}

impl View for TokenExchangeResponse {
    type V = TokenAnswer;

    open spec fn view(&self) -> TokenAnswer {
        TokenAnswer {
            access_token: self.access_token@,
            token_type: self.token_type@,
            expires_in: self.expires_in,
            issued_token_type: self.issued_token_type.deep_view(),
        }
    }
}

/// The token type of a response that names none.
pub fn default_token_type() -> (token_type: String)
    ensures
        token_type@ == "Bearer"@,
{
    "Bearer".to_owned()
}

/// An issued credential.
#[derive(Debug, PartialEq)]
pub struct IssuedCredential {
    /// The credential itself.
    pub value: Option<String>,
    /// The credential in its parts.
    pub parts: StrMap<String>,
    /// How long it may be kept, in seconds.
    pub ttl_seconds: u64,
    /// The lease to revoke; exchanged tokens carry their own expiry and have none.
    pub lease_id: Option<String>,
    /// When it was issued.
    pub issued_at: String,
    /// What may be told of it.
    pub metadata: StrMap<String>,
}

/// What an [`IssuedCredential`] holds.
#[verifier::ext_equal]
pub struct Credential {
    pub value: Option<Seq<char>>,
    pub parts: Map<Seq<char>, Seq<char>>,
    pub ttl_seconds: u64,
    pub lease_id: Option<Seq<char>>,
    pub issued_at: Seq<char>,
    pub metadata: Map<Seq<char>, Seq<char>>,
}

impl View for IssuedCredential {
    type V = Credential;

    open spec fn view(&self) -> Credential {
        Credential {
            value: self.value.deep_view(),
            parts: self.parts@.map_values(|v: String| v@),
            ttl_seconds: self.ttl_seconds,
            lease_id: self.lease_id.deep_view(),
            issued_at: self.issued_at@,
            metadata: self.metadata@.map_values(|v: String| v@),
        }
    }
}

/// The credential that a token response stands for: it lasts as long as the endpoint says, or an
/// hour where it does not say.
pub open spec fn credential_of(answer: TokenAnswer, issued_at: Seq<char>) -> Credential {
    let metadata = map!["oauth.token_type"@ => answer.token_type];
    Credential {
        value: Some(answer.access_token),
        parts: map![
            "access_token"@ => answer.access_token,
            "token_type"@ => answer.token_type,
        ],
        ttl_seconds: match answer.expires_in {
            Some(seconds) => seconds,
            None => 3600,
        },
        lease_id: None,
        issued_at,
        metadata: match answer.issued_token_type {
            Some(issued) => metadata.insert("oauth.issued_token_type"@, issued),
            None => metadata,
        },
    }
}

/// The credential that a token response stands for, issued at `issued_at`.
pub fn credential_from(response: TokenExchangeResponse, issued_at: String) -> (credential:
    IssuedCredential)
    ensures
        credential@ == credential_of(response@, issued_at@),
        credential.value.deep_view() == Some(response.access_token@),
        response.expires_in matches Some(seconds) ==> credential.ttl_seconds == seconds,
        response.expires_in is None ==> credential.ttl_seconds == 3600,
        credential.lease_id is None,
        credential.issued_at@ == issued_at@,
{
    let ttl_seconds: u64 = match response.expires_in {
        Some(seconds) => seconds,
        None => 3600,
    };
    let mut parts: StrMap<String> = StrMap::new();
    parts.insert("access_token".to_owned(), response.access_token.clone());
    parts.insert("token_type".to_owned(), response.token_type.clone());
    let mut metadata: StrMap<String> = StrMap::new();
    metadata.insert("oauth.token_type".to_owned(), response.token_type.clone());
    let ghost answer = response@;
    if let Some(issued) = response.issued_token_type {
        metadata.insert("oauth.issued_token_type".to_owned(), issued);
    }
    let credential = IssuedCredential {
        value: Some(response.access_token),
        parts,
        ttl_seconds,
        lease_id: None,
        issued_at,
        metadata,
    };
    assert(credential@ =~= credential_of(answer, issued_at@));
    credential
}

/// What the body of an answer is to be read as.
#[derive(Debug, Clone, Copy, PartialEq, Eq, Structural)]
pub enum ReplyKind {
    /// A token response.
    Token,
    /// An error response.
    Error,
}

/// How to read an answer with this status.
pub open spec fn read_as(status: u16) -> ReplyKind {
    if 200 <= status <= 299 {
        ReplyKind::Token
    } else {
        ReplyKind::Error
    }
}

/// How to read an answer with this status: a success carries a token, anything else an error.
pub fn reply_kind(status: u16) -> (kind: ReplyKind)
    ensures
        kind == read_as(status),
        kind == if 200 <= status <= 299 {
            ReplyKind::Token
        } else {
            ReplyKind::Error
        },
{
    if 200 <= status && status <= 299 {
        ReplyKind::Token
    } else {
        ReplyKind::Error
    }
}

/// Whether `code` is one of the error codes of RFC 6749 section 5.2.
pub open spec fn is_standard_code(code: Seq<char>) -> bool {
    ||| code == "invalid_request"@
    ||| code == "invalid_client"@
    ||| code == "invalid_grant"@
    ||| code == "unauthorized_client"@
    ||| code == "unsupported_grant_type"@
    ||| code == "invalid_scope"@
}

/// Whether `code` is one of the error codes of RFC 6749 section 5.2.
pub fn is_standard(code: &str) -> (standard: bool)
    ensures
        standard == is_standard_code(code@),
{
    same_text(code, "invalid_request") || same_text(code, "invalid_client") || same_text(
        code,
        "invalid_grant",
    ) || same_text(code, "unauthorized_client") || same_text(code, "unsupported_grant_type")
        || same_text(code, "invalid_scope")
}

/// The error code among the members of an error response: its `error` member, where that is one
/// of the standard codes. Any other text may echo a secret and is no code.
pub open spec fn code_among(members: Option<Map<Seq<char>, Option<Seq<char>>>>) -> Option<
    Seq<char>,
> {
    match members {
        Some(map) if map.contains_key("error"@) => match map["error"@] {
            Some(code) if is_standard_code(code) => Some(code),
            _ => None,
        },
        _ => None,
    }
}

/// The error code among the members of an error response.
pub fn error_code(members: &Option<Vec<(String, Option<String>)>>) -> (code: Option<String>)
    ensures
        code.deep_view() == code_among(crate::outside::members_listed(*members)),
{
    let list = match members {
        Some(list) => list,
        None => {
            return None;
        },
    };
    let ghost all = list.deep_view();
    let mut n: usize = list.len();
    assert(all.take(n as int) =~= all);
    while n > 0
        invariant
            all == list.deep_view(),
            crate::outside::members_listed(*members) == Some(crate::str_map::as_map(all)),
            n <= list@.len(),
            code_among(Some(crate::str_map::as_map(all))) == code_among(
                Some(crate::str_map::as_map(all.take(n as int))),
            ),
        decreases n,
    {
        assert(all.take(n as int).drop_last() =~= all.take(n - 1));
        assert(all.take(n as int).last() == (list@[n - 1].0@, list@[n - 1].1.deep_view()));
        if same_text(list[n - 1].0.as_str(), "error") {
            return match &list[n - 1].1 {
                Some(code) if is_standard(code.as_str()) => Some(code.clone()),
                _ => None,
            };
        }
        n -= 1;
    }
    None
}

/// The reason given for an answer that is no success. It tells the provider and the status, and
/// of the body nothing but a standard error code.
pub open spec fn error_reason(
    provider_name: Seq<char>,
    status_line: Seq<char>,
    code: Option<Seq<char>>,
) -> Seq<char> {
    let told = "token-exchange endpoint returned HTTP "@ + status_line + " for `"@ + provider_name;
    match code {
        Some(code) if is_standard_code(code) => told + "` (error: "@ + code + ")"@,
        _ => told + "`"@,
    }
}

/// The refusal for a status: too many requests throttle, any other client error lies with the
/// configuration or the token, and everything else with the endpoint.
pub open spec fn refusal_for(status: u16, reason: Seq<char>) -> Refusal {
    if status == 429 {
        Refusal::Throttled { reason }
    } else if 400 <= status <= 499 {
        Refusal::Misconfigured { reason }
    } else {
        Refusal::Backend { reason }
    }
}

/// The error for an answer that is no success, from its status, the status in words and the
/// error code. A code that is not standard is not told.
pub fn error_for(
    provider_name: &str,
    status: u16,
    status_line: &str,
    code: &Option<String>,
) -> (error: CredentialError)
    ensures
        error@ == refusal_for(
            status,
            error_reason(provider_name@, status_line@, code.deep_view()),
        ),
        error is Throttled <==> status == 429,
        error is Misconfigured <==> 400 <= status && status <= 499 && status != 429,
        error is Backend <==> status < 400 || status > 499,
{
    let mut reason = "token-exchange endpoint returned HTTP ".to_owned();
    reason.append(status_line);
    reason.append(" for `");
    reason.append(provider_name);
    match code {
        Some(code) if is_standard(code.as_str()) => {
            reason.append("` (error: ");
            reason.append(code.as_str());
            reason.append(")");
        },
        _ => {
            reason.append("`");
        },
    }
    if status == 429 {
        CredentialError::Throttled { reason }
    } else if 400 <= status && status <= 499 {
        CredentialError::Misconfigured { reason }
    } else {
        CredentialError::Backend { reason }
    }
}

/// The body of an answer as it is looked at: a placeholder stands for one that could not be read.
pub open spec fn readable(body: Option<Seq<char>>) -> Seq<char> {
    match body {
        Some(text) => text,
        None => "<unreadable>"@,
    }
}

/// The refusal of an exchange that was answered with `status` and `body`.
pub open spec fn refused(
    provider_name: Seq<char>,
    status: u16,
    body: Option<Seq<char>>,
) -> Refusal {
    refusal_for(
        status,
        error_reason(
            provider_name,
            crate::outside::status_line(status),
            code_among(crate::outside::json_members(readable(body))),
        ),
    )
}

/// The reason that a refusal gives.
pub open spec fn reason_of(refusal: Refusal) -> Seq<char> {
    match refusal {
        Refusal::NotAuthorized { reason } => reason,
        Refusal::Misconfigured { reason } => reason,
        Refusal::Throttled { reason } => reason,
        Refusal::Backend { reason } => reason,
    }
}

/// The error for an answer that is no success. Its reason starts with the status in digits.
pub fn refuse(provider_name: &str, status: u16, body: &Option<String>) -> (error: CredentialError)
    requires
        100 <= status <= 999,
    ensures
        error@ == refused(provider_name@, status, body.deep_view()),
        error is Throttled <==> status == 429,
        error is Misconfigured <==> 400 <= status && status <= 499 && status != 429,
        error is Backend <==> status < 400 || status > 499,
        ("token-exchange endpoint returned HTTP "@ + crate::text::decimal_text(
            status as nat,
        )).is_prefix_of(reason_of(error@)),
{
    let members = match body {
        Some(text) => parse_json_object(text.as_str()),
        None => parse_json_object("<unreadable>"),
    };
    let code = error_code(&members);
    let line = status_text(status);
    let error = error_for(provider_name, status, line.as_str(), &code);
    proof {
        let start = "token-exchange endpoint returned HTTP "@;
        let digits = crate::text::decimal_text(status as nat);
        let reason = reason_of(error@);
        let shown = digits + " "@;
        assert(line@.subrange(0, shown.len() as int) =~= shown);
        assert(reason.subrange(0, (start + digits).len() as int) =~= start + digits) by {
            assert forall|i: int| 0 <= i < digits.len() implies line@[i] == digits[i] by {
                assert(line@.subrange(0, shown.len() as int)[i] == shown[i]);
            }
        }
    }
    error
}

/// How an exchange with the token endpoint ended.
#[derive(Debug)]
pub enum ExchangeReply {
    /// The endpoint was not reached; holds what the transport said.
    Unreachable(String),
    /// An answer that is no success, with its body where that could be read.
    Refused { status: u16, body: Option<String> },
    /// A success whose body decoded as a token response.
    Token(TokenExchangeResponse),
    /// A success whose body did not decode; holds what the decoder said.
    Undecodable(String),
}

/// What the end of an exchange comes to: the credential, issued at `issued_at`, or the refusal.
pub open spec fn concluded(
    provider_name: Seq<char>,
    reply: ExchangeReply,
    issued_at: Seq<char>,
) -> Result<Credential, Refusal> {
    match reply {
        ExchangeReply::Token(response) => Ok(credential_of(response@, issued_at)),
        ExchangeReply::Refused { status, body } => Err(
            refused(provider_name, status, body.deep_view()),
        ),
        ExchangeReply::Unreachable(detail) => Err(
            Refusal::Backend {
                reason: "token-exchange endpoint unreachable for `"@ + provider_name + "`: "@
                    + detail@,
            },
        ),
        ExchangeReply::Undecodable(detail) => Err(
            Refusal::Backend {
                reason: "failed to parse token-exchange response for `"@ + provider_name + "`: "@
                    + detail@,
            },
        ),
    }
}

/// Turns the end of an exchange into the credential, stamped with the present time, or into the
/// reason why there is none.
pub fn conclude(provider_name: &str, reply: ExchangeReply) -> (result: Result<
    IssuedCredential,
    CredentialError,
>)
    requires
        reply matches ExchangeReply::Refused { status, .. } ==> 100 <= status <= 999,
    ensures
        match result {
            Ok(credential) => concluded(provider_name@, reply, credential.issued_at@) == Ok::<
                Credential,
                Refusal,
            >(credential@),
            Err(e) => concluded(provider_name@, reply, Seq::empty()) == Err::<Credential, Refusal>(
                e@,
            ),
        },
        reply is Token <==> result is Ok,
        reply matches ExchangeReply::Token(response) ==> (result matches Ok(credential) ==> {
            &&& credential@ == credential_of(response@, credential@.issued_at)
            &&& crate::outside::is_utc_timestamp(credential@.issued_at)
            &&& credential.value.deep_view() == Some(response.access_token@)
            &&& response.expires_in matches Some(seconds) ==> credential.ttl_seconds == seconds
            &&& response.expires_in is None ==> credential.ttl_seconds == 3600
            &&& credential.lease_id is None
        }),
        reply matches ExchangeReply::Unreachable(detail) ==> (result matches Err(e) ==> e@ == (
        Refusal::Backend {
            reason: "token-exchange endpoint unreachable for `"@ + provider_name@ + "`: "@ + detail@,
        })),
        reply matches ExchangeReply::Undecodable(detail) ==> (result matches Err(e) ==> e@ == (
        Refusal::Backend {
            reason: "failed to parse token-exchange response for `"@ + provider_name@ + "`: "@
                + detail@,
        })),
        reply matches ExchangeReply::Refused { status, body } ==> (result matches Err(e) ==> {
            &&& e@ == refused(provider_name@, status, body.deep_view())
            &&& e is Throttled <==> status == 429
            &&& e is Misconfigured <==> 400 <= status && status <= 499 && status != 429
            &&& e is Backend <==> status < 400 || status > 499
            &&& ("token-exchange endpoint returned HTTP "@ + crate::text::decimal_text(
                status as nat,
            )).is_prefix_of(reason_of(e@))
        }),
{
    match reply {
        ExchangeReply::Token(response) => Ok(credential_from(response, now_rfc3339())),
        ExchangeReply::Refused { status, body } => Err(refuse(provider_name, status, &body)),
        ExchangeReply::Unreachable(detail) => {
            let mut reason = "token-exchange endpoint unreachable for `".to_owned();
            reason.append(provider_name);
            reason.append("`: ");
            reason.append(detail.as_str());
            Err(CredentialError::Backend { reason })
        },
        ExchangeReply::Undecodable(detail) => {
            let mut reason = "failed to parse token-exchange response for `".to_owned();
            reason.append(provider_name);
            reason.append("`: ");
            reason.append(detail.as_str());
            Err(CredentialError::Backend { reason })
        },
    }
}

/// Only a standard error code is ever taken out of an error response.
pub proof fn only_standard_codes_are_surfaced(
    members: Option<Map<Seq<char>, Option<Seq<char>>>>,
)
    ensures
        code_among(members) matches Some(code) ==> is_standard_code(code),
{
}

/// The body of an error response does not leak: whatever it holds, the reason given for it is
/// the one for a body without a code or the one for a standard code, and bodies with the same
/// standard code, or with none, are refused alike.
pub proof fn error_body_does_not_leak(
    provider_name: Seq<char>,
    status: u16,
    body: Option<Seq<char>>,
    other: Option<Seq<char>>,
)
    ensures
        ({
            let line = crate::outside::status_line(status);
            let reason = reason_of(refused(provider_name, status, body));
            ||| reason == error_reason(provider_name, line, None)
            ||| exists|code: Seq<char>|
                is_standard_code(code) && reason == #[trigger] error_reason(
                    provider_name,
                    line,
                    Some(code),
                )
        }),
        code_among(crate::outside::json_members(readable(body))) == code_among(
            crate::outside::json_members(readable(other)),
        ) ==> refused(provider_name, status, body) == refused(provider_name, status, other),
{
    only_standard_codes_are_surfaced(crate::outside::json_members(readable(body)));
}

/// What may be told of a credential does not depend on the token.
pub proof fn metadata_does_not_tell_the_token(
    answer: TokenAnswer,
    access_token: Seq<char>,
    issued_at: Seq<char>,
)
    ensures
        credential_of(TokenAnswer { access_token, ..answer }, issued_at).metadata == credential_of(
            answer,
            issued_at,
        ).metadata,
{
}

/// The value of a credential is its access token.
pub proof fn value_is_the_access_token(answer: TokenAnswer, issued_at: Seq<char>)
    ensures
        credential_of(answer, issued_at).parts.contains_key("access_token"@),
        credential_of(answer, issued_at).value == Some(
            credential_of(answer, issued_at).parts["access_token"@],
        ),
{
    reveal_strlit("access_token");
    reveal_strlit("token_type");
    assert("access_token"@.len() != "token_type"@.len());
}

} // verus!

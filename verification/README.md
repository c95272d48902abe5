# oauth_token_exchange

Verified core of an OAuth 2.0 token-exchange credential issuer (RFC 8693). The issuer exchanges a
caller's subject token for a downstream access token, so that a gateway can act on behalf of the
end user.

- `src/` is the library, verified with Verus:
  - `config`: the configuration, its rules, and the fleet template;
  - `issue`: who may exchange what, and the request that goes to the token endpoint;
  - `reply`: the endpoint's answer, turned into a credential or an error;
  - `plugin`: the issuer around a configuration that keeps its rules;
  - `str_map`: a map with text keys that lists its entries in order;
  - `text`: operations on text, specified on sequences of characters;
  - `outside`: what is taken from other crates, with the contracts that are trusted.
- `app/` is the gateway plugin around it: JSON, HTTP, metrics and the host's traits.
- `tests/` runs the library.

## What is proved

- A configuration that is accepted resolves every target it serves, by name or by template, to a
  provider with an HTTP endpoint, a client ID and a timeout within range.
- Only a verified caller's token is exchanged, and never an empty one.
- The endpoint cannot be overridden per call; audience and resource can.
- An exact entry wins over the template; a target outside the allowlist fails closed.
- No refusal to plan an exchange tells the subject token. Of the body of an error response nothing
  is told but a standard error code (RFC 6749 section 5.2); any other text under `error` is not.

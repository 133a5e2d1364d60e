# ritsp_ltv

Timestamp tokens (RFC 3161) and OCSP responses (RFC 6960), parsed and checked
for long-term validation of signatures. The library under `src/` is verified
with Verus; the HTTP client under `app/` is ordinary Rust around it.

## Layout

- `der_utils`, `asn1`, `bytes`, `oid`, `text`, `time`: DER elements, ASN.1 values,
  byte strings and times.
- `cert`, `trust`: certificates, and the questions that a trust store answers.
- `crypto`: hashes, random bytes and the verification of signatures.
- `tsp`: timestamp requests and responses, TSTInfo, and the verification of a
  token (CMS signature, ESS binding, signer, path, message imprint).
- `ltv::ocsp`: OCSP requests and responses, who may sign a response, nonces,
  freshness, and the outcome of a check.
- `net`: which addresses and URLs a fetch may reach, and where a redirect may go.

## Contracts

A parser is stated as a spec function from bytes to a result or an error, and
its executable form returns exactly that. What the larger decoders and the
signature backends compute has a name of its own; the contracts of the functions
above them speak of those names. A trust store is a closure that the caller supplies, and the
contracts say which questions it is asked and what each answer leads to.

Proof functions whose names begin with `law_` state properties that relate
several functions.

# polymesh_primitives

Identity primitives for customer due diligence, verified with Verus.

- `src/cdd_id.rs`: `InvestorUid` (16 bytes) and `CddId` (32 bytes), their
  conversions, and the laws that relate them.
- `src/identity_id.rs`: `IdentityId` (32 bytes), built from a number.
- `src/claim.rs`: the one call into `confidential_identity_v1`, which computes
  the CDD Id commitment.
- `src/bytes.rs`: byte-string specifications and helpers.
- `app/`: SCALE-encodable forms of the types, converting one for one.

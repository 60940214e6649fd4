# alternator_driver

Vector-search extensions for a DynamoDB-compatible (Alternator) client,
written in Verus.

`src/` is the verified library:

- `vector.rs`: vector attributes and indexes with their validating builders,
  projections, similarity functions, index updates and vector searches; the
  JSON each is sent as, the parsing of vector-index metadata from responses,
  and the laws that tie the two together (a request form is read back as the
  index it came from).
- `json.rs`: a plain JSON tree (numbers kept as their decimal text) with the
  lookups the parsing uses and the well-formedness a parsed document has.
- `attribute_value.rs`: DynamoDB attribute values as plain data and their
  DynamoDB JSON form, binary data in standard base64.
- `interceptors.rs`: the rewrite of a `CreateTable` body that sets its
  `VectorIndexes` member, from the body's bytes to the new bytes and their
  `Content-Length`, with its laws (the member is set, the others are kept, a
  second rewrite changes nothing, a well-formed document stays so).
- `vector_interceptor.rs`: the per-request vector-search state.
- `outputs.rs`: SDK outputs paired with parsed vector-index metadata.

`app/` holds what runs inside the SDK's request pipeline: the interceptors'
hooks, the extension traits on the generated builders, the conversions
between SDK attribute values and the library's model of them, and the query
output with floating-point scores.

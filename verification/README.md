# connector_service

The core of a payment connector service, written in Verus: the request and
response transformations of the card payment connectors (Adyen, Airwallex,
Authorize.Net, BitPay, Checkout.com, Elavon, Fiserv, Fiuu), the currency and
status enumerations, identifier types, request lineage ids, the masking of
personal data, and the rewriting of the events the service publishes.

- `src/` is the verified library. Every function states its result in its
  contract; the laws that relate several functions are public proof functions
  (`lemma_*`). Calls into outside crates (`ring`, `hex`, `base64`,
  `serde_urlencoded`, `serde_json`, `url`, `uuid`, `nanoid`, `time`) go
  through small trusted wrappers whose contracts say what each call returns.
- `app/` is the ordinary Rust around it: amounts in floating point, serde
  copies of the library's types, and the hand-off of events to a writer.
- `tests/` runs the library on concrete values.

//! Identifier types: alphanumeric ids, ids bounded in length, the typed ids of
//! payments, profiles, keys and connector accounts, and global ids that carry
//! the cell they were made in.

use vstd::prelude::*;
use vstd::string::StringSliceAdditionalSpecFns;

use crate::consts::{
    ALPHABETS, CELL_IDENTIFIER_LENGTH, ID_LENGTH, MAX_ALLOWED_MERCHANT_REFERENCE_ID_LENGTH,
    MAX_GLOBAL_ID_LENGTH, MIN_GLOBAL_ID_LENGTH, MIN_REQUIRED_MERCHANT_REFERENCE_ID_LENGTH,
};
use crate::runtime_values::{is_lower_hex_digit, nanoid_from_alphabet, new_uuid_v7_simple};
use crate::text::{
    byte_len, first_index_of, lemma_ascii_byte_len, lemma_encode_concat, lemma_first_index_of, lemma_trim_idempotent, lemma_trim_untouched, lemma_trimmed_ends, text_byte_len, unicode_whitespace, concat, concat3, i64_to_decimal, int_decimal, split_once_char, split_once_spec, trim, trim_spec,
};

verus! {

/// Errors of validating a value.
#[derive(Clone, Debug)]
pub enum ValidationError {
    IncorrectValueProvided { field_name: &'static str },
    InvalidValue { message: String },
}

/// Whether a text is a generated suffix: `ID_LENGTH` characters of the id alphabet.
pub open spec fn is_generated_suffix(s: Seq<char>) -> bool {
    &&& s.len() == ID_LENGTH
    &&& forall|i: int| 0 <= i < s.len() ==> ALPHABETS@.contains(#[trigger] s[i])
}

/// Whether a text is a generated id with a prefix: the prefix, `_`, and a
/// generated suffix.
pub open spec fn is_generated_id(id: Seq<char>, prefix: Seq<char>) -> bool {
    exists|suffix: Seq<char>| #[trigger] is_generated_suffix(suffix) && id == prefix + "_"@ + suffix
}

/// A random id with a prefix: the prefix, `_`, and `ID_LENGTH` random
/// characters of the id alphabet.
pub fn generate_id_with_default_len(prefix: &str) -> (r: String)
    ensures
        is_generated_id(r@, prefix@),
{
    proof {
        assert forall|i: int| 0 <= i < ALPHABETS@.len() implies (#[trigger] ALPHABETS@[i] as u32) < 0x80 by {
            lemma_alphabet_chars(ALPHABETS@[i]);
        }
    }
    let suffix = nanoid_from_alphabet(&ALPHABETS, ID_LENGTH);
    let r = concat3(prefix, "_", suffix.as_str());
    assert(is_generated_suffix(suffix@));
    r
}

/// Whether a character may stand in an alphanumeric id: an ASCII letter or
/// digit, `_` or `-`.
pub open spec fn is_id_char(c: char) -> bool {
    ('a' <= c <= 'z') || ('A' <= c <= 'Z') || ('0' <= c <= '9') || c == '_' || c == '-'
}

/// The first character of a text that may not stand in an alphanumeric id.
pub open spec fn first_invalid_id_char(s: Seq<char>) -> Option<char>
    decreases s.len(),
{
    if s.len() == 0 {
        None
    } else if !is_id_char(s[0]) {
        Some(s[0])
    } else {
        first_invalid_id_char(s.drop_first())
    }
}

/// A text has no character that may not stand in an alphanumeric id exactly
/// when each of its characters may.
pub proof fn lemma_no_invalid_id_char(s: Seq<char>)
    ensures
        first_invalid_id_char(s) is None <==> forall|i: int| 0 <= i < s.len() ==> is_id_char(#[trigger] s[i]),
    decreases s.len(),
{
    if s.len() > 0 {
        lemma_no_invalid_id_char(s.drop_first());
        if forall|i: int| 0 <= i < s.len() ==> is_id_char(#[trigger] s[i]) {
            assert forall|i: int| 0 <= i < s.drop_first().len() implies is_id_char(#[trigger] s.drop_first()[i]) by {
                assert(s.drop_first()[i] == s[i + 1]);
            }
        }
        if first_invalid_id_char(s) is None {
            assert forall|i: int| 0 <= i < s.len() implies is_id_char(#[trigger] s[i]) by {
                if i > 0 {
                    assert(s[i] == s.drop_first()[i - 1]);
                }
            }
        }
    }
}

/// The first character of a text that may not stand in an alphanumeric id.
pub fn find_invalid_id_char(s: &str) -> (r: Option<char>)
    ensures
        r == first_invalid_id_char(s@),
{
    let n = s.unicode_len();
    let mut i: usize = 0;
    assert(s@.skip(0) =~= s@);
    while i < n
        invariant
            n == s@.len(),
            i <= n,
            first_invalid_id_char(s@) == first_invalid_id_char(s@.skip(i as int)),
        decreases n - i,
    {
        let c = s.get_char(i);
        assert(s@.skip(i as int)[0] == c);
        assert(s@.skip(i as int).drop_first() =~= s@.skip(i + 1));
        let ok = ('a' <= c && c <= 'z') || ('A' <= c && c <= 'Z') || ('0' <= c && c <= '9') || c == '_' || c == '-';
        if !ok {
            return Some(c);
        }
        i = i + 1;
    }
    assert(s@.skip(n as int).len() == 0);
    None
}

/// An alphanumeric id.
#[derive(Clone, Debug, PartialEq, Eq, PartialOrd, Ord, Hash)]
pub struct AlphaNumericId(pub String);

/// A value that holds a character an alphanumeric id cannot have.
#[derive(Clone, Debug)]
pub struct AlphaNumericIdError(pub String, pub char);

impl AlphaNumericId {
    /// A random id with a prefix.
    pub fn new(prefix: &str) -> (r: Self)
        ensures
            is_generated_id(r.0@, prefix@),
    {
        AlphaNumericId(generate_id_with_default_len(prefix))
    }

    /// An id of a text made only of ASCII letters and digits, `_` and `-`;
    /// otherwise the text and its first character of another kind.
    pub fn from(input_string: String) -> (r: Result<Self, AlphaNumericIdError>)
        ensures
            match first_invalid_id_char(input_string@) {
                Some(c) => r matches Err(e) && e.0@ == input_string@ && e.1 == c,
                None => r matches Ok(id) && id.0@ == input_string@,
            },
    {
        match find_invalid_id_char(input_string.as_str()) {
            Some(c) => Err(AlphaNumericIdError(input_string, c)),
            None => Ok(AlphaNumericId(input_string)),
        }
    }

    /// An id of a text taken as it is.
    pub fn new_unchecked(input_string: String) -> (r: Self)
        ensures
            r.0@ == input_string@,
    {
        AlphaNumericId(input_string)
    }
}

/// Errors of bounding the length of an id.
#[derive(Clone, Debug)]
pub enum LengthIdError {
    MaxLengthViolated(u8),
    MinLengthViolated(u8),
    AlphanumericIdError(AlphaNumericIdError),
}

/// An id whose length in bytes lies between a minimum and a maximum.
#[derive(Clone, Debug, PartialEq, Eq, PartialOrd, Ord, Hash)]
pub struct LengthId<const MAX_LENGTH: u8, const MIN_LENGTH: u8>(pub AlphaNumericId);

/// The outcome of bounding a text's length in bytes.
pub open spec fn length_check(len: nat, max: u8, min: u8) -> Option<LengthIdError> {
    if len > max {
        Some(LengthIdError::MaxLengthViolated(max))
    } else if len < min {
        Some(LengthIdError::MinLengthViolated(min))
    } else {
        None
    }
}

impl<const MAX_LENGTH: u8, const MIN_LENGTH: u8> LengthId<MAX_LENGTH, MIN_LENGTH> {
    /// The id of a text, trimmed, whose length in bytes lies within the bounds.
    pub fn from(input_string: String) -> (r: Result<Self, LengthIdError>)
        ensures
            match length_check(byte_len(trim_spec(input_string@)), MAX_LENGTH, MIN_LENGTH) {
                Some(LengthIdError::MaxLengthViolated(m)) => r matches Err(LengthIdError::MaxLengthViolated(x)) && x == m,
                Some(LengthIdError::MinLengthViolated(m)) => r matches Err(LengthIdError::MinLengthViolated(x)) && x == m,
                Some(_) => false,
                None => match first_invalid_id_char(trim_spec(input_string@)) {
                    Some(c) => r matches Err(LengthIdError::AlphanumericIdError(e)) && e.0@ == trim_spec(input_string@)
                        && e.1 == c,
                    None => r matches Ok(id) && id.0.0@ == trim_spec(input_string@),
                },
            },
    {
        let trimmed = trim(input_string.as_str());
        let len = text_byte_len(trimmed.as_str());
        if len > 255 || len > MAX_LENGTH as usize {
            return Err(LengthIdError::MaxLengthViolated(MAX_LENGTH));
        }
        if len < MIN_LENGTH as usize {
            return Err(LengthIdError::MinLengthViolated(MIN_LENGTH));
        }
        let alphanumeric_id = match AlphaNumericId::from(trimmed) {
            Ok(id) => id,
            Err(e) => return Err(LengthIdError::AlphanumericIdError(e)),
        };
        Ok(LengthId(alphanumeric_id))
    }

    /// A random id with a prefix.
    pub fn new(prefix: &str) -> (r: Self)
        ensures
            is_generated_id(r.0.0@, prefix@),
    {
        LengthId(AlphaNumericId::new(prefix))
    }

    /// An id taken as it is.
    pub fn new_unchecked(alphanumeric_id: AlphaNumericId) -> (r: Self)
        ensures
            r.0.0@ == alphanumeric_id.0@,
    {
        LengthId(alphanumeric_id)
    }

    /// The id of an alphanumeric id whose length in bytes lies within the bounds.
    pub fn from_alphanumeric_id(alphanumeric_id: AlphaNumericId) -> (r: Result<Self, LengthIdError>)
        ensures
            match length_check(byte_len(alphanumeric_id.0@), MAX_LENGTH, MIN_LENGTH) {
                Some(LengthIdError::MaxLengthViolated(m)) => r matches Err(LengthIdError::MaxLengthViolated(x)) && x == m,
                Some(LengthIdError::MinLengthViolated(m)) => r matches Err(LengthIdError::MinLengthViolated(x)) && x == m,
                Some(_) => false,
                None => r matches Ok(id) && id.0.0@ == alphanumeric_id.0@,
            },
    {
        let len = text_byte_len(alphanumeric_id.0.as_str());
        if len > 255 || len > MAX_LENGTH as usize {
            return Err(LengthIdError::MaxLengthViolated(MAX_LENGTH));
        }
        if len < MIN_LENGTH as usize {
            return Err(LengthIdError::MinLengthViolated(MIN_LENGTH));
        }
        Ok(LengthId(alphanumeric_id))
    }
}


/// An id of merchant reference length.
pub type MerchantReferenceId = LengthId<MAX_ALLOWED_MERCHANT_REFERENCE_ID_LENGTH, MIN_REQUIRED_MERCHANT_REFERENCE_ID_LENGTH>;

/// The outcome of reading a text as an id of merchant reference length.
pub open spec fn reference_id_of(text: Seq<char>) -> Option<Seq<char>> {
    if length_check(byte_len(trim_spec(text)), MAX_ALLOWED_MERCHANT_REFERENCE_ID_LENGTH, MIN_REQUIRED_MERCHANT_REFERENCE_ID_LENGTH) is None
        && first_invalid_id_char(trim_spec(text)) is None {
        Some(trim_spec(text))
    } else {
        None
    }
}

/// An interface to generate object identifiers.
pub trait GenerateId: Sized {
    /// Generates a random object identifier.
    fn generate() -> Self;
}

/// A payment id.
#[derive(Clone, Debug, PartialEq, Eq, Hash)]
pub struct PaymentId(pub MerchantReferenceId);

impl PaymentId {
    /// The text of the id.
    pub fn get_string_repr(&self) -> (r: &str)
        ensures
            r@ == self.0.0.0@,
    {
        self.0.0.0.as_str()
    }

    /// The id of a text, trimmed, of merchant reference length.
    pub fn try_from(value: String) -> (r: Result<Self, ValidationError>)
        ensures
            match reference_id_of(value@) {
                Some(t) => r matches Ok(id) && id.0.0.0@ == t,
                None => r matches Err(ValidationError::IncorrectValueProvided { field_name }) && field_name@ == "payment_id"@,
            },
    {
        match MerchantReferenceId::from(value) {
            Ok(id) => Ok(PaymentId(id)),
            Err(_) => Err(ValidationError::IncorrectValueProvided { field_name: "payment_id" }),
        }
    }
}

impl Default for PaymentId {
    /// A random id with the prefix `pay`.
    fn default() -> (r: Self)
        ensures
            is_generated_id(r.0.0.0@, "pay"@),
    {
        PaymentId(LengthId::new("pay"))
    }
}

/// A business profile id.
#[derive(Clone, Debug, PartialEq, Eq, Hash)]
pub struct ProfileId(pub MerchantReferenceId);

impl ProfileId {
    /// The text of the id.
    pub fn get_string_repr(&self) -> (r: &str)
        ensures
            r@ == self.0.0.0@,
    {
        self.0.0.0.as_str()
    }

    /// The id of a text, trimmed, of merchant reference length.
    pub fn try_from(value: String) -> (r: Result<Self, ValidationError>)
        ensures
            match reference_id_of(value@) {
                Some(t) => r matches Ok(id) && id.0.0.0@ == t,
                None => r matches Err(ValidationError::IncorrectValueProvided { field_name }) && field_name@ == "profile_id"@,
            },
    {
        match MerchantReferenceId::from(value) {
            Ok(id) => Ok(ProfileId(id)),
            Err(_) => Err(ValidationError::IncorrectValueProvided { field_name: "profile_id" }),
        }
    }
}

impl GenerateId for ProfileId {
    /// A random id with the prefix `pro`.
    fn generate() -> (r: Self)
        ensures
            is_generated_id(r.0.0.0@, "pro"@),
    {
        ProfileId(LengthId::new("pro"))
    }
}

/// An ephemeral key id.
#[derive(Clone, Debug, PartialEq, Eq, Hash)]
pub struct ClientSecretId(pub MerchantReferenceId);

impl ClientSecretId {
    /// The text of the id.
    pub fn get_string_repr(&self) -> (r: &str)
        ensures
            r@ == self.0.0.0@,
    {
        self.0.0.0.as_str()
    }

    /// The id of a text, trimmed, of merchant reference length.
    pub fn try_from(value: String) -> (r: Result<Self, ValidationError>)
        ensures
            match reference_id_of(value@) {
                Some(t) => r matches Ok(id) && id.0.0.0@ == t,
                None => r matches Err(ValidationError::IncorrectValueProvided { field_name }) && field_name@ == "key_id"@,
            },
    {
        match MerchantReferenceId::from(value) {
            Ok(id) => Ok(ClientSecretId(id)),
            Err(_) => Err(ValidationError::IncorrectValueProvided { field_name: "key_id" }),
        }
    }
}

impl GenerateId for ClientSecretId {
    /// A random id with the prefix `csi`.
    fn generate() -> (r: Self)
        ensures
            is_generated_id(r.0.0.0@, "csi"@),
    {
        ClientSecretId(LengthId::new("csi"))
    }
}

impl Default for ClientSecretId {
    /// A random id with the prefix `key`.
    fn default() -> (r: Self)
        ensures
            is_generated_id(r.0.0.0@, "key"@),
    {
        ClientSecretId(LengthId::new("key"))
    }
}

/// An API key id.
#[derive(Clone, Debug, PartialEq, Eq, Hash)]
pub struct ApiKeyId(pub MerchantReferenceId);

impl ApiKeyId {
    /// The text of the id.
    pub fn get_string_repr(&self) -> (r: &str)
        ensures
            r@ == self.0.0.0@,
    {
        self.0.0.0.as_str()
    }

    /// The id of a text, trimmed, of merchant reference length.
    pub fn try_from(value: String) -> (r: Result<Self, ValidationError>)
        ensures
            match reference_id_of(value@) {
                Some(t) => r matches Ok(id) && id.0.0.0@ == t,
                None => r matches Err(ValidationError::IncorrectValueProvided { field_name }) && field_name@ == "key_id"@,
            },
    {
        match MerchantReferenceId::from(value) {
            Ok(id) => Ok(ApiKeyId(id)),
            Err(_) => Err(ValidationError::IncorrectValueProvided { field_name: "key_id" }),
        }
    }
}

impl Default for ApiKeyId {
    /// A random id with the prefix `key`.
    fn default() -> (r: Self)
        ensures
            is_generated_id(r.0.0.0@, "key"@),
    {
        ApiKeyId(LengthId::new("key"))
    }
}

/// A merchant connector account id.
#[derive(Clone, Debug, PartialEq, Eq, Hash)]
pub struct MerchantConnectorAccountId(pub MerchantReferenceId);

impl MerchantConnectorAccountId {
    /// The text of the id.
    pub fn get_string_repr(&self) -> (r: &str)
        ensures
            r@ == self.0.0.0@,
    {
        self.0.0.0.as_str()
    }

    /// The id of a text, trimmed, of merchant reference length.
    pub fn try_from(value: String) -> (r: Result<Self, ValidationError>)
        ensures
            match reference_id_of(value@) {
                Some(t) => r matches Ok(id) && id.0.0.0@ == t,
                None => r matches Err(ValidationError::IncorrectValueProvided { field_name }) && field_name@ == "merchant_connector_id"@,
            },
    {
        match MerchantReferenceId::from(value) {
            Ok(id) => Ok(MerchantConnectorAccountId(id)),
            Err(_) => Err(ValidationError::IncorrectValueProvided { field_name: "merchant_connector_id" }),
        }
    }
}

impl GenerateId for MerchantConnectorAccountId {
    /// A random id with the prefix `mca`.
    fn generate() -> (r: Self)
        ensures
            is_generated_id(r.0.0.0@, "mca"@),
    {
        MerchantConnectorAccountId(LengthId::new("mca"))
    }
}

/// A profile acquirer id.
#[derive(Clone, Debug, PartialEq, Eq, PartialOrd, Ord, Hash)]
pub struct ProfileAcquirerId(pub MerchantReferenceId);

impl ProfileAcquirerId {
    /// The text of the id.
    pub fn get_string_repr(&self) -> (r: &str)
        ensures
            r@ == self.0.0.0@,
    {
        self.0.0.0.as_str()
    }

    /// The id of a text, trimmed, of merchant reference length.
    pub fn try_from(value: String) -> (r: Result<Self, ValidationError>)
        ensures
            match reference_id_of(value@) {
                Some(t) => r matches Ok(id) && id.0.0.0@ == t,
                None => r matches Err(ValidationError::IncorrectValueProvided { field_name }) && field_name@ == "profile_acquirer_id"@,
            },
    {
        match MerchantReferenceId::from(value) {
            Ok(id) => Ok(ProfileAcquirerId(id)),
            Err(_) => Err(ValidationError::IncorrectValueProvided { field_name: "profile_acquirer_id" }),
        }
    }
}

impl GenerateId for ProfileAcquirerId {
    /// A random id with the prefix `pro_acq`.
    fn generate() -> (r: Self)
        ensures
            is_generated_id(r.0.0.0@, "pro_acq"@),
    {
        ProfileAcquirerId(LengthId::new("pro_acq"))
    }
}

impl PaymentId {
    /// The key of the payment in the key-value store.
    pub fn get_hash_key_for_kv_store(&self) -> (r: String)
        ensures
            r@ == "pi_"@ + self.0.0.0@,
    {
        concat("pi_", self.0.0.0.as_str())
    }

    /// The payment id of flows that have no payment: `irrelevant_payment_id_in_` and the flow.
    pub fn get_irrelevant_id(flow: &str) -> (r: Self)
        ensures
            r.0.0.0@ == "irrelevant_payment_id_in_"@ + flow@,
    {
        let alphanumeric_id = AlphaNumericId::new_unchecked(concat("irrelevant_payment_id_in_", flow));
        PaymentId(LengthId::new_unchecked(alphanumeric_id))
    }

    /// The id of an attempt of the payment: the payment id, `_`, and the attempt count.
    pub fn get_attempt_id(&self, attempt_count: i16) -> (r: String)
        ensures
            r@ == self.0.0.0@ + "_"@ + int_decimal(attempt_count as int),
    {
        let count = i64_to_decimal(attempt_count as i64);
        concat3(self.0.0.0.as_str(), "_", count.as_str())
    }

    /// A random client secret of the payment, prefixed with the payment id and `_secret`.
    pub fn generate_client_secret(&self) -> (r: String)
        ensures
            is_generated_id(r@, self.0.0.0@ + "_secret"@),
    {
        let prefix = concat(self.0.0.0.as_str(), "_secret");
        generate_id_with_default_len(prefix.as_str())
    }

    /// The key of the payment's payment method authentication.
    pub fn get_pm_auth_key(&self) -> (r: String)
        ensures
            r@ == "pm_auth_"@ + self.0.0.0@,
    {
        concat("pm_auth_", self.0.0.0.as_str())
    }

    /// The poll id of the payment's external authentication request.
    pub fn get_external_authentication_request_poll_id(&self) -> (r: String)
        ensures
            r@ == "external_authentication_"@ + self.0.0.0@,
    {
        concat("external_authentication_", self.0.0.0.as_str())
    }

    /// A random payment id for sample data, prefixed with `test`.
    pub fn generate_test_payment_id_for_sample_data() -> (r: Self)
        ensures
            is_generated_id(r.0.0.0@, "test"@),
    {
        let id = generate_id_with_default_len("test");
        let alphanumeric_id = AlphaNumericId::new_unchecked(id);
        PaymentId(LengthId::new_unchecked(alphanumeric_id))
    }

    /// The payment id of a text.
    pub fn wrap(payment_id_string: String) -> (r: Result<Self, ValidationError>)
        ensures
            match reference_id_of(payment_id_string@) {
                Some(t) => r matches Ok(id) && id.0.0.0@ == t,
                None => r matches Err(ValidationError::IncorrectValueProvided { field_name }) && field_name@ == "payment_id"@,
            },
    {
        PaymentId::try_from(payment_id_string)
    }
}

impl ClientSecretId {
    /// The key of the client secret in redis.
    pub fn generate_redis_key(&self) -> (r: String)
        ensures
            r@ == "cs_"@ + self.0.0.0@,
    {
        concat("cs_", self.0.0.0.as_str())
    }
}

impl ApiKeyId {
    /// A random API key id with a prefix.
    pub fn generate_key_id(prefix: &'static str) -> (r: Self)
        ensures
            is_generated_id(r.0.0.0@, prefix@),
    {
        ApiKeyId(LengthId::new(prefix))
    }
}

impl MerchantConnectorAccountId {
    /// The merchant connector account id of a text.
    pub fn wrap(merchant_connector_account_id: String) -> (r: Result<Self, ValidationError>)
        ensures
            match reference_id_of(merchant_connector_account_id@) {
                Some(t) => r matches Ok(id) && id.0.0.0@ == t,
                None => r matches Err(ValidationError::IncorrectValueProvided { field_name }) && field_name@ == "merchant_connector_id"@,
            },
    {
        MerchantConnectorAccountId::try_from(merchant_connector_account_id)
    }
}

/// A customer id.
#[derive(Clone, Debug, PartialEq, Eq, Hash)]
pub struct CustomerId(pub String);

impl Default for CustomerId {
    fn default() -> (r: Self)
        ensures
            r.0@ == "cus_default"@,
    {
        CustomerId(String::from_str("cus_default"))
    }
}

impl CustomerId {
    pub fn get_string_repr(&self) -> (r: &str)
        ensures
            r@ == self.0@,
    {
        self.0.as_str()
    }

    /// The customer id of a text: every text is accepted.
    pub fn from_str(s: &str) -> (r: Result<Self, ValidationError>)
        ensures
            r matches Ok(id) && id.0@ == s@,
    {
        Ok(CustomerId(String::from_str(s)))
    }
}

/// A merchant id.
#[derive(Clone, Debug, PartialEq, Eq, Hash)]
pub struct MerchantId(pub String);

impl Default for MerchantId {
    fn default() -> (r: Self)
        ensures
            r.0@ == "mer_default"@,
    {
        MerchantId(String::from_str("mer_default"))
    }
}

impl MerchantId {
    pub fn get_string_repr(&self) -> (r: &str)
        ensures
            r@ == self.0@,
    {
        self.0.as_str()
    }

    /// The merchant id of a text: every text is accepted.
    pub fn from_str(s: &str) -> (r: Result<Self, ValidationError>)
        ensures
            r matches Ok(id) && id.0@ == s@,
    {
        Ok(MerchantId(String::from_str(s)))
    }
}


/// The kinds of entities global ids are made for.
#[derive(Clone, Copy, Debug, PartialEq, Eq, Structural)]
pub enum GlobalEntity {
    Customer,
    Payment,
    Attempt,
    PaymentMethod,
    Refund,
    PaymentMethodSession,
    Token,
}

/// The prefix of an entity's global ids.
pub open spec fn entity_prefix(e: GlobalEntity) -> Seq<char> {
    match e {
        GlobalEntity::Customer => "cus"@,
        GlobalEntity::Payment => "pay"@,
        GlobalEntity::Attempt => "att"@,
        GlobalEntity::PaymentMethod => "pm"@,
        GlobalEntity::Refund => "ref"@,
        GlobalEntity::PaymentMethodSession => "pms"@,
        GlobalEntity::Token => "tok"@,
    }
}

impl GlobalEntity {
    pub fn prefix(self) -> (r: &'static str)
        ensures
            r@ == entity_prefix(self),
    {
        match self {
            GlobalEntity::Customer => "cus",
            GlobalEntity::Payment => "pay",
            GlobalEntity::Attempt => "att",
            GlobalEntity::PaymentMethod => "pm",
            GlobalEntity::Refund => "ref",
            GlobalEntity::PaymentMethodSession => "pms",
            GlobalEntity::Token => "tok",
        }
    }
}

/// Errors of reading a cell id.
#[derive(Clone, Debug)]
pub enum CellIdError {
    InvalidCellLength(LengthIdError),
}

/// The identifier of a cell of the distributed system: exactly
/// `CELL_IDENTIFIER_LENGTH` bytes.
#[derive(Clone, Debug, PartialEq, Eq, Hash)]
pub struct CellId(pub LengthId<CELL_IDENTIFIER_LENGTH, CELL_IDENTIFIER_LENGTH>);

/// Whether a text, trimmed, is a cell id: an alphanumeric id of the cell
/// length.
pub open spec fn is_cell_id(text: Seq<char>) -> bool {
    &&& byte_len(trim_spec(text)) == CELL_IDENTIFIER_LENGTH
    &&& first_invalid_id_char(trim_spec(text)) is None
}

impl CellId {
    /// The cell id of a text, trimmed.
    pub fn from_str(cell_id_string: &str) -> (r: Result<Self, CellIdError>)
        ensures
            is_cell_id(cell_id_string@) ==> (r matches Ok(c) && c.0.0.0@ == trim_spec(cell_id_string@)),
            !is_cell_id(cell_id_string@) ==> r is Err,
    {
        let trimmed = trim(cell_id_string);
        let alphanumeric_id = match AlphaNumericId::from(trimmed) {
            Ok(id) => id,
            Err(e) => return Err(CellIdError::InvalidCellLength(LengthIdError::AlphanumericIdError(e))),
        };
        match LengthId::<CELL_IDENTIFIER_LENGTH, CELL_IDENTIFIER_LENGTH>::from_alphanumeric_id(alphanumeric_id) {
            Ok(id) => Ok(CellId(id)),
            Err(e) => Err(CellIdError::InvalidCellLength(e)),
        }
    }

    pub fn get_string_repr(&self) -> (r: &str)
        ensures
            r@ == self.0.0.0@,
    {
        self.0.0.0.as_str()
    }
}

/// Errors of reading a global id.
#[derive(Clone, Debug)]
pub enum GlobalIdError {
    LengthIdError(LengthIdError),
    InvalidIdFormat,
    CellIdError(CellIdError),
}

/// An id unique across cells: the cell id, `_`, the entity prefix, `_`, and a
/// time-ordered identifier.
#[derive(Clone, Debug, PartialEq, Eq, Hash)]
pub struct GlobalId(pub LengthId<MAX_GLOBAL_ID_LENGTH, MIN_GLOBAL_ID_LENGTH>);

/// Whether a text is the simple form of a uuid: 32 lowercase hexadecimal digits.
pub open spec fn is_uuid_simple(s: Seq<char>) -> bool {
    s.len() == 32 && forall|i: int| 0 <= i < s.len() ==> is_lower_hex_digit(#[trigger] s[i])
}

/// Whether a text is a global id made in a cell for an entity.
pub open spec fn is_generated_global_id(id: Seq<char>, cell: Seq<char>, entity: GlobalEntity) -> bool {
    exists|suffix: Seq<char>| #[trigger] is_uuid_simple(suffix) && id == cell + "_"@ + entity_prefix(entity) + "_"@ + suffix
}

/// The outcome of reading a text as a global id: trimmed, between the global
/// id lengths in bytes, and starting with a cell id before its first `_`.
pub open spec fn global_id_of(text: Seq<char>) -> Option<Seq<char>> {
    let t = trim_spec(text);
    if length_check(byte_len(t), MAX_GLOBAL_ID_LENGTH, MIN_GLOBAL_ID_LENGTH) is None && first_invalid_id_char(t) is None {
        match split_once_spec(t, '_') {
            Some((cell, _)) => if is_cell_id(cell) { Some(t) } else { None },
            None => None,
        }
    } else {
        None
    }
}

impl GlobalId {
    /// A new global id of an entity made in a cell.
    pub fn generate(cell_id: &CellId, entity: GlobalEntity) -> (r: Self)
        ensures
            is_generated_global_id(r.0.0.0@, cell_id.0.0.0@, entity),
    {
        let prefix = concat3(cell_id.get_string_repr(), "_", entity.prefix());
        let suffix = new_uuid_v7_simple();
        let id = concat3(prefix.as_str(), "_", suffix.as_str());
        assert(is_uuid_simple(suffix@));
        GlobalId(LengthId::new_unchecked(AlphaNumericId::new_unchecked(id)))
    }

    /// The global id of a text.
    pub fn from_string(input_string: String) -> (r: Result<Self, GlobalIdError>)
        ensures
            match global_id_of(input_string@) {
                Some(t) => r matches Ok(id) && id.0.0.0@ == t,
                None => r is Err,
            },
    {
        let length_id = match LengthId::<MAX_GLOBAL_ID_LENGTH, MIN_GLOBAL_ID_LENGTH>::from(input_string) {
            Ok(id) => id,
            Err(e) => return Err(GlobalIdError::LengthIdError(e)),
        };
        let (cell_id, _remaining) = match split_once_char(length_id.0.0.as_str(), '_') {
            Some(parts) => parts,
            None => return Err(GlobalIdError::InvalidIdFormat),
        };
        match CellId::from_str(cell_id.as_str()) {
            Ok(_) => {},
            Err(e) => return Err(GlobalIdError::CellIdError(e)),
        }
        Ok(GlobalId(length_id))
    }

    pub fn get_string_repr(&self) -> (r: &str)
        ensures
            r@ == self.0.0.0@,
    {
        self.0.0.0.as_str()
    }
}

/// A global payment id.
#[derive(Clone, Debug, PartialEq, Eq, Hash)]
pub struct GlobalPaymentId(pub GlobalId);

/// A global customer id.
#[derive(Clone, Debug, PartialEq, Eq, Hash)]
pub struct GlobalCustomerId(pub GlobalId);

/// A global token id.
#[derive(Clone, Debug, PartialEq, Eq, Hash)]
pub struct GlobalTokenId(pub GlobalId);

/// A global id of a payment method.
#[derive(Clone, Debug, PartialEq, Eq, Hash)]
pub struct GlobalPaymentMethodId(pub GlobalId);

/// A global id of a payment method session.
#[derive(Clone, Debug, PartialEq, Eq, Hash)]
pub struct GlobalPaymentMethodSessionId(pub GlobalId);

/// Errors of making a payment method id.
#[derive(Clone, Copy, Debug, PartialEq, Eq, Structural)]
pub enum GlobalPaymentMethodIdError {
    ConstructionError,
}

/// Errors of making a payment method session id.
#[derive(Clone, Copy, Debug, PartialEq, Eq, Structural)]
pub enum GlobalPaymentMethodSessionIdError {
    ConstructionError,
}

impl GlobalPaymentMethodSessionId {
    /// A new session id made in a cell.
    pub fn generate(cell_id: &CellId) -> (r: Result<Self, GlobalPaymentMethodSessionIdError>)
        ensures
            r matches Ok(id) && is_generated_global_id(id.0.0.0.0@, cell_id.0.0.0@, GlobalEntity::PaymentMethodSession),
    {
        Ok(GlobalPaymentMethodSessionId(GlobalId::generate(cell_id, GlobalEntity::PaymentMethodSession)))
    }

    pub fn get_string_repr(&self) -> (r: &str)
        ensures
            r@ == self.0.0.0.0@,
    {
        self.0.get_string_repr()
    }

    /// The key of the session in redis.
    pub fn get_redis_key(&self) -> (r: String)
        ensures
            r@ == "payment_method_session:"@ + self.0.0.0.0@,
    {
        concat("payment_method_session:", self.get_string_repr())
    }
}

impl GlobalPaymentMethodId {
    /// A new payment method id made in a cell.
    pub fn generate(cell_id: &CellId) -> (r: Result<Self, GlobalPaymentMethodIdError>)
        ensures
            r matches Ok(id) && is_generated_global_id(id.0.0.0.0@, cell_id.0.0.0@, GlobalEntity::PaymentMethod),
    {
        Ok(GlobalPaymentMethodId(GlobalId::generate(cell_id, GlobalEntity::PaymentMethod)))
    }

    pub fn get_string_repr(&self) -> (r: &str)
        ensures
            r@ == self.0.0.0.0@,
    {
        self.0.get_string_repr()
    }

    /// The payment method id of a text.
    pub fn generate_from_string(value: String) -> (r: Result<Self, GlobalPaymentMethodIdError>)
        ensures
            match global_id_of(value@) {
                Some(t) => r matches Ok(id) && id.0.0.0.0@ == t,
                None => r == Err::<Self, GlobalPaymentMethodIdError>(GlobalPaymentMethodIdError::ConstructionError),
            },
    {
        match GlobalId::from_string(value) {
            Ok(id) => Ok(GlobalPaymentMethodId(id)),
            Err(_) => Err(GlobalPaymentMethodIdError::ConstructionError),
        }
    }
}

/// A global refund id.
#[derive(Clone, Debug, PartialEq, Eq, Hash)]
pub struct GlobalRefundId(pub GlobalId);

impl GlobalRefundId {
    pub fn get_string_repr(&self) -> (r: &str)
        ensures
            r@ == self.0.0.0.0@,
    {
        self.0.get_string_repr()
    }

    /// A new refund id made in a cell.
    pub fn generate(cell_id: &CellId) -> (r: Self)
        ensures
            is_generated_global_id(r.0.0.0.0@, cell_id.0.0.0@, GlobalEntity::Refund),
    {
        GlobalRefundId(GlobalId::generate(cell_id, GlobalEntity::Refund))
    }

    /// The refund id of a text.
    pub fn try_from(value: String) -> (r: Result<Self, ValidationError>)
        ensures
            match global_id_of(value@) {
                Some(t) => r matches Ok(id) && id.0.0.0.0@ == t,
                None => r matches Err(ValidationError::IncorrectValueProvided { field_name }) && field_name@ == "refund_id"@,
            },
    {
        match GlobalId::from_string(value) {
            Ok(id) => Ok(GlobalRefundId(id)),
            Err(_) => Err(ValidationError::IncorrectValueProvided { field_name: "refund_id" }),
        }
    }
}

/// An id read from a text reads as the same id again.
pub proof fn lemma_reference_id_stable(text: Seq<char>)
    requires
        reference_id_of(text) is Some,
    ensures
        reference_id_of(reference_id_of(text)->0) == reference_id_of(text),
{
    lemma_trim_idempotent(text);
}

/// The irrelevant payment id of a flow made of the characters of alphanumeric
/// ids, short enough for a merchant reference, is the id that wrapping its
/// text gives.
pub proof fn lemma_irrelevant_id_wraps(flow: Seq<char>)
    requires
        first_invalid_id_char(flow) is None,
        25 + flow.len() <= MAX_ALLOWED_MERCHANT_REFERENCE_ID_LENGTH,
    ensures
        reference_id_of("irrelevant_payment_id_in_"@ + flow) == Some("irrelevant_payment_id_in_"@ + flow),
{
    let prefix = "irrelevant_payment_id_in_"@;
    let id = prefix + flow;
    reveal_strlit("irrelevant_payment_id_in_");
    assert(prefix.len() == 25);
    lemma_no_invalid_id_char(flow);
    lemma_no_invalid_id_char(id);
    assert forall|i: int| 0 <= i < id.len() implies is_id_char(#[trigger] id[i]) by {
        if i >= 25 {
            assert(id[i] == flow[i - 25]);
        }
    }
    assert forall|i: int| 0 <= i < id.len() implies (#[trigger] id[i] as u32) < 0x80 by {
        assert(is_id_char(id[i]));
    }
    lemma_ascii_byte_len(id);
    assert(!unicode_whitespace(id[0]));
    assert(is_id_char(id.last()));
    lemma_trim_untouched(id);
}

/// A global id read from a text reads as the same global id again.
pub proof fn lemma_global_id_stable(text: Seq<char>)
    requires
        global_id_of(text) is Some,
    ensures
        global_id_of(global_id_of(text)->0) == global_id_of(text),
{
    lemma_trim_idempotent(text);
}

proof fn lemma_alphabet_chars(c: char)
    requires
        ALPHABETS@.contains(c),
    ensures
        ('0' <= c <= '9') || ('a' <= c <= 'z') || ('A' <= c <= 'Z'),
{
    let i = choose|i: int| 0 <= i < ALPHABETS@.len() && ALPHABETS@[i] == c;
    assert(ALPHABETS@[i] == c);
}

/// A generated id with a short prefix made of the characters of alphanumeric
/// ids is read back as it is, as an id of merchant reference length.
pub proof fn lemma_generated_id_accepted(id: Seq<char>, prefix: Seq<char>)
    requires
        is_generated_id(id, prefix),
        byte_len(prefix) + 21 <= MAX_ALLOWED_MERCHANT_REFERENCE_ID_LENGTH,
        first_invalid_id_char(prefix) is None,
    ensures
        reference_id_of(id) == Some(id),
{
    let suffix = choose|suffix: Seq<char>| #[trigger] is_generated_suffix(suffix) && id == prefix + "_"@ + suffix;
    reveal_strlit("_");
    lemma_no_invalid_id_char(prefix);
    lemma_no_invalid_id_char(id);
    assert forall|i: int| 0 <= i < id.len() implies is_id_char(#[trigger] id[i]) by {
        if i < prefix.len() {
            assert(id[i] == prefix[i]);
        } else if i == prefix.len() {
            assert(id[i] == '_');
        } else {
            assert(id[i] == suffix[i - prefix.len() - 1]);
            lemma_alphabet_chars(suffix[i - prefix.len() - 1]);
        }
    }
    assert forall|i: int| 0 <= i < suffix.len() implies (#[trigger] suffix[i] as u32) < 0x80 by {
        lemma_alphabet_chars(suffix[i]);
    }
    lemma_ascii_byte_len(suffix);
    lemma_ascii_byte_len("_"@);
    lemma_encode_concat(prefix, "_"@);
    lemma_encode_concat(prefix + "_"@, suffix);
    assert(byte_len(id) == byte_len(prefix) + 1 + 20);
    if prefix.len() == 0 {
        assert(id[0] == '_');
    } else {
        assert(id[0] == prefix[0]);
    }
    assert(id.last() == suffix.last());
    lemma_alphabet_chars(suffix.last());
    lemma_trim_untouched(id);
}

/// A global id made in a cell, whose id is trimmed and holds no `_`, is read
/// back as it is.
pub proof fn lemma_generated_global_id_accepted(id: Seq<char>, cell: Seq<char>, entity: GlobalEntity)
    requires
        is_generated_global_id(id, cell, entity),
        is_cell_id(cell),
        trim_spec(cell) == cell,
        !cell.contains('_'),
    ensures
        global_id_of(id) == Some(id),
{
    let suffix = choose|suffix: Seq<char>| #[trigger] is_uuid_simple(suffix) && id == cell + "_"@ + entity_prefix(entity) + "_"@ + suffix;
    let prefix = entity_prefix(entity);
    reveal_strlit("_");
    reveal_strlit("cus");
    reveal_strlit("pay");
    reveal_strlit("att");
    reveal_strlit("pm");
    reveal_strlit("ref");
    reveal_strlit("pms");
    reveal_strlit("tok");
    assert(cell.len() > 0) by {
        if cell.len() == 0 {
            assert(vstd::utf8::encode_utf8(cell) =~= Seq::<u8>::empty());
        }
    }
    lemma_trimmed_ends(cell);
    assert forall|i: int| 0 <= i < suffix.len() implies (#[trigger] suffix[i] as u32) < 0x80 by {
        assert(is_lower_hex_digit(suffix[i]));
    }
    lemma_ascii_byte_len(suffix);
    lemma_ascii_byte_len("_"@);
    lemma_ascii_byte_len(prefix);
    lemma_encode_concat(cell, "_"@);
    lemma_encode_concat(cell + "_"@, prefix);
    lemma_encode_concat(cell + "_"@ + prefix, "_"@);
    lemma_encode_concat(cell + "_"@ + prefix + "_"@, suffix);
    assert(2 <= prefix.len() <= 3);
    assert(byte_len(id) == 5 + 1 + prefix.len() + 1 + 32);
    assert(id[0] == cell[0]);
    assert(id.last() == suffix.last());
    assert(is_lower_hex_digit(suffix.last()));
    lemma_trim_untouched(id);
    let k = cell.len() as int;
    assert(id[k] == '_');
    assert forall|j: int| 0 <= j < k implies id[j] != '_' by {
        assert(id[j] == cell[j]);
    }
    lemma_first_index_of(id, '_');
    let f = first_index_of(id, '_')->0;
    if f < k {
        assert(id[f] == cell[f]);
    }
    assert(f == k);
    assert(id.subrange(0, k) =~= cell);
    lemma_no_invalid_id_char(cell);
    lemma_no_invalid_id_char(id);
    let p0 = k + 1;
    let s0 = k + 2 + prefix.len();
    assert forall|i: int| 0 <= i < id.len() implies is_id_char(#[trigger] id[i]) by {
        if i < k {
            assert(id[i] == cell[i]);
        } else if i == k {
        } else if i < s0 - 1 {
            assert(id[i] == prefix[i - p0]);
        } else if i == s0 - 1 {
            assert(id[i] == '_');
        } else {
            assert(id[i] == suffix[i - s0]);
            assert(is_lower_hex_digit(suffix[i - s0]));
        }
    }
}

} // verus!

//! The closed enums of a stored key and their canonical text.
//!
//! Each enum is stored as the JSON text of its variant: a variant without
//! data as the JSON string of its name, a variant with data as a JSON object
//! with the variant's name as its one key. The text of a JSON string is made
//! by `serde_json`; which name a variant has, and how names are put together,
//! is laid down here.

use vstd::prelude::*;
use vstd::string::StringExecFns;

verus! {

/// The error type of `serde_json`, carried through as it is.
#[verifier::external_type_specification]
#[verifier::external_body]
pub struct ExJsonError(serde_json::Error);

/// A value could not be put into its canonical text. The text is the
/// encoder's own message.
#[derive(Debug, PartialEq, Eq)]
pub struct EncodeError {
    pub message: String,
}

/// Whether a character stands for itself inside a JSON string: it is neither
/// the quote, nor the backslash, nor a control character.
pub open spec fn stands_for_itself(c: char) -> bool {
    c != '"' && c != '\\' && c as u32 >= 0x20
}

/// Whether every character of `text` stands for itself inside a JSON string.
pub open spec fn needs_no_escape(text: Seq<char>) -> bool {
    forall|i: int| 0 <= i < text.len() ==> stands_for_itself(#[trigger] text[i])
}

/// `text` between two double quotes.
pub open spec fn quoted(text: Seq<char>) -> Seq<char> {
    seq!['"'] + text + seq!['"']
}

/// `serde_json::to_string` on a string slice. The serializer writes a quote,
/// the text with an escape for each quote, backslash and control character,
/// and a closing quote, into a buffer in memory that takes every write. So
/// for a text without such characters the call succeeds with the text
/// between two quotes; of other texts nothing is claimed.
#[verifier::external_body]
fn json_string(text: &str) -> (encoded: Result<String, serde_json::Error>)
    ensures
        needs_no_escape(text@) ==> encoded is Ok,
        encoded matches Ok(json) ==> (needs_no_escape(text@) ==> json@ == quoted(text@)),
{
    serde_json::to_string(text)
}

/// `serde_json::Error::to_string`, the error's `Display` form.
#[verifier::external_body]
fn json_error_message(error: &serde_json::Error) -> (message: String) {
    error.to_string()
}

/// What becomes of the encoder's answer: its text is handed on, and its
/// error becomes an [`EncodeError`].
pub fn encoded_text(answer: Result<String, serde_json::Error>) -> (text: Result<
    String,
    EncodeError,
>)
    ensures
        answer matches Ok(json) ==> text matches Ok(same) && same@ == json@,
        answer is Err ==> text is Err,
{
    match answer {
        Ok(json) => Ok(json),
        Err(error) => Err(EncodeError { message: json_error_message(&error) }),
    }
}

/// The JSON string of a name that needs no escape.
fn encode_name(name: &str) -> (text: Result<String, EncodeError>)
    requires
        needs_no_escape(name@),
    ensures
        text matches Ok(json) && json@ == quoted(name@),
{
    encoded_text(json_string(name))
}

/// Whether `text` is the JSON string of `name`.
fn is_json_string_of(text: &str, name: &str) -> (same: bool)
    requires
        needs_no_escape(name@),
    ensures
        same == (text@ == quoted(name@)),
{
    match encode_name(name) {
        Ok(json) => json == text.to_owned(),
        Err(_) => false,
    }
}

/// Two names with the same JSON string are the same name.
pub proof fn law_quoted_is_injective(first: Seq<char>, second: Seq<char>)
    requires
        quoted(first) == quoted(second),
    ensures
        first == second,
{
    assert(quoted(first).subrange(1, first.len() as int + 1) =~= first);
    assert(quoted(second).subrange(1, second.len() as int + 1) =~= second);
    assert(quoted(first).len() == first.len() + 2);
    assert(quoted(second).len() == second.len() + 2);
}

/// The version of the layout in which a key is stored.
#[derive(Clone, Copy, Debug, PartialEq, Eq, Structural)]
pub enum StoredKeyVersion {
    /// The first layout.
    V1,
}

impl StoredKeyVersion {
    /// The name of the variant.
    pub open spec fn name(self) -> Seq<char> {
        "V1"@
    }

    /// The text under which this value is stored.
    pub open spec fn canonical(self) -> Seq<char> {
        quoted(self.name())
    }

    /// The value that `text` stands for, if it is the canonical text of one.
    pub open spec fn parsed(text: Seq<char>) -> Option<StoredKeyVersion> {
        if text == StoredKeyVersion::V1.canonical() {
            Some(StoredKeyVersion::V1)
        } else {
            None
        }
    }

    proof fn lemma_names()
        ensures
            needs_no_escape("V1"@),
    {
        reveal_strlit("V1");
    }

    pub fn variant_name(&self) -> (name: &'static str)
        ensures
            name@ == self.name(),
            needs_no_escape(name@),
    {
        proof {
            Self::lemma_names();
        }
        "V1"
    }

    /// The canonical text of this value.
    pub fn encode(&self) -> (text: Result<String, EncodeError>)
        ensures
            text matches Ok(json) && json@ == self.canonical(),
    {
        encode_name(self.variant_name())
    }

    /// Reads a value back from its canonical text; any other text gives `None`.
    pub fn decode(text: &str) -> (value: Option<StoredKeyVersion>)
        ensures
            value == StoredKeyVersion::parsed(text@),
    {
        if is_json_string_of(text, StoredKeyVersion::V1.variant_name()) {
            Some(StoredKeyVersion::V1)
        } else {
            None
        }
    }

    /// Decoding the canonical text of a value gives the value back.
    pub proof fn law_round_trip(self)
        ensures
            StoredKeyVersion::parsed(self.canonical()) == Some(self),
    {
    }
}

/// What a stored key is for.
#[derive(Clone, Copy, Debug, PartialEq, Eq, Structural)]
pub enum StoredKeyType {
    /// A key that a user added.
    User,
    /// The key that stands at the root of a key store.
    Root,
}

impl StoredKeyType {
    /// The name of the variant.
    pub open spec fn name(self) -> Seq<char> {
        match self {
            StoredKeyType::User => "User"@,
            StoredKeyType::Root => "Root"@,
        }
    }

    /// The text under which this value is stored.
    pub open spec fn canonical(self) -> Seq<char> {
        quoted(self.name())
    }

    /// The value that `text` stands for, if it is the canonical text of one.
    pub open spec fn parsed(text: Seq<char>) -> Option<StoredKeyType> {
        if text == StoredKeyType::User.canonical() {
            Some(StoredKeyType::User)
        } else if text == StoredKeyType::Root.canonical() {
            Some(StoredKeyType::Root)
        } else {
            None
        }
    }

    proof fn lemma_names()
        ensures
            needs_no_escape("User"@),
            needs_no_escape("Root"@),
            "User"@ != "Root"@,
    {
        reveal_strlit("User");
        reveal_strlit("Root");
        assert("User"@[0] != "Root"@[0]);
    }

    pub fn variant_name(&self) -> (name: &'static str)
        ensures
            name@ == self.name(),
            needs_no_escape(name@),
    {
        proof {
            Self::lemma_names();
        }
        match self {
            StoredKeyType::User => "User",
            StoredKeyType::Root => "Root",
        }
    }

    /// The canonical text of this value.
    pub fn encode(&self) -> (text: Result<String, EncodeError>)
        ensures
            text matches Ok(json) && json@ == self.canonical(),
    {
        encode_name(self.variant_name())
    }

    /// Reads a value back from its canonical text; any other text gives `None`.
    pub fn decode(text: &str) -> (value: Option<StoredKeyType>)
        ensures
            value == StoredKeyType::parsed(text@),
    {
        if is_json_string_of(text, StoredKeyType::User.variant_name()) {
            Some(StoredKeyType::User)
        } else if is_json_string_of(text, StoredKeyType::Root.variant_name()) {
            Some(StoredKeyType::Root)
        } else {
            None
        }
    }

    /// Decoding the canonical text of a value gives the value back.
    pub proof fn law_round_trip(self)
        ensures
            StoredKeyType::parsed(self.canonical()) == Some(self),
    {
        Self::lemma_names();
        if StoredKeyType::User.canonical() == StoredKeyType::Root.canonical() {
            law_quoted_is_injective("User"@, "Root"@);
        }
    }
}

/// The cipher that protects the master key of a stored key.
#[derive(Clone, Copy, Debug, PartialEq, Eq, Structural)]
pub enum Algorithm {
    XChaCha20Poly1305,
    Aes256Gcm,
}

impl Algorithm {
    /// The name of the variant.
    pub open spec fn name(self) -> Seq<char> {
        match self {
            Algorithm::XChaCha20Poly1305 => "XChaCha20Poly1305"@,
            Algorithm::Aes256Gcm => "Aes256Gcm"@,
        }
    }

    /// The text under which this value is stored.
    pub open spec fn canonical(self) -> Seq<char> {
        quoted(self.name())
    }

    /// The value that `text` stands for, if it is the canonical text of one.
    pub open spec fn parsed(text: Seq<char>) -> Option<Algorithm> {
        if text == Algorithm::XChaCha20Poly1305.canonical() {
            Some(Algorithm::XChaCha20Poly1305)
        } else if text == Algorithm::Aes256Gcm.canonical() {
            Some(Algorithm::Aes256Gcm)
        } else {
            None
        }
    }

    proof fn lemma_names()
        ensures
            needs_no_escape("XChaCha20Poly1305"@),
            needs_no_escape("Aes256Gcm"@),
            "XChaCha20Poly1305"@ != "Aes256Gcm"@,
    {
        reveal_strlit("XChaCha20Poly1305");
        reveal_strlit("Aes256Gcm");
        assert("XChaCha20Poly1305"@.len() != "Aes256Gcm"@.len());
    }

    pub fn variant_name(&self) -> (name: &'static str)
        ensures
            name@ == self.name(),
            needs_no_escape(name@),
    {
        proof {
            Self::lemma_names();
        }
        match self {
            Algorithm::XChaCha20Poly1305 => "XChaCha20Poly1305",
            Algorithm::Aes256Gcm => "Aes256Gcm",
        }
    }

    /// The canonical text of this value.
    pub fn encode(&self) -> (text: Result<String, EncodeError>)
        ensures
            text matches Ok(json) && json@ == self.canonical(),
    {
        encode_name(self.variant_name())
    }

    /// Reads a value back from its canonical text; any other text gives `None`.
    pub fn decode(text: &str) -> (value: Option<Algorithm>)
        ensures
            value == Algorithm::parsed(text@),
    {
        if is_json_string_of(text, Algorithm::XChaCha20Poly1305.variant_name()) {
            Some(Algorithm::XChaCha20Poly1305)
        } else if is_json_string_of(text, Algorithm::Aes256Gcm.variant_name()) {
            Some(Algorithm::Aes256Gcm)
        } else {
            None
        }
    }

    /// Decoding the canonical text of a value gives the value back.
    pub proof fn law_round_trip(self)
        ensures
            Algorithm::parsed(self.canonical()) == Some(self),
    {
        Self::lemma_names();
        if Algorithm::XChaCha20Poly1305.canonical() == Algorithm::Aes256Gcm.canonical() {
            law_quoted_is_injective("XChaCha20Poly1305"@, "Aes256Gcm"@);
        }
    }
}

/// How much work the hashing of a key is made to cost.
#[derive(Clone, Copy, Debug, PartialEq, Eq, Structural)]
pub enum Params {
    /// The usual cost.
    Standard,
    /// A higher cost.
    Hardened,
    /// The highest cost.
    Paranoid,
}

impl Params {
    /// The name of the variant.
    pub open spec fn name(self) -> Seq<char> {
        match self {
            Params::Standard => "Standard"@,
            Params::Hardened => "Hardened"@,
            Params::Paranoid => "Paranoid"@,
        }
    }

    /// The text under which this value is stored.
    pub open spec fn canonical(self) -> Seq<char> {
        quoted(self.name())
    }

    /// The value that `text` stands for, if it is the canonical text of one.
    pub open spec fn parsed(text: Seq<char>) -> Option<Params> {
        if text == Params::Standard.canonical() {
            Some(Params::Standard)
        } else if text == Params::Hardened.canonical() {
            Some(Params::Hardened)
        } else if text == Params::Paranoid.canonical() {
            Some(Params::Paranoid)
        } else {
            None
        }
    }

    proof fn lemma_names()
        ensures
            needs_no_escape("Standard"@),
            needs_no_escape("Hardened"@),
            needs_no_escape("Paranoid"@),
            "Standard"@.len() == 8,
            "Hardened"@.len() == 8,
            "Paranoid"@.len() == 8,
            "Standard"@[0] == 'S',
            "Hardened"@[0] == 'H',
            "Paranoid"@[0] == 'P',
    {
        reveal_strlit("Standard");
        reveal_strlit("Hardened");
        reveal_strlit("Paranoid");
    }

    pub fn variant_name(&self) -> (name: &'static str)
        ensures
            name@ == self.name(),
            needs_no_escape(name@),
    {
        proof {
            Self::lemma_names();
        }
        match self {
            Params::Standard => "Standard",
            Params::Hardened => "Hardened",
            Params::Paranoid => "Paranoid",
        }
    }

    /// The canonical text of this value.
    pub fn encode(&self) -> (text: Result<String, EncodeError>)
        ensures
            text matches Ok(json) && json@ == self.canonical(),
    {
        encode_name(self.variant_name())
    }

    /// Reads a value back from its canonical text; any other text gives `None`.
    pub fn decode(text: &str) -> (value: Option<Params>)
        ensures
            value == Params::parsed(text@),
    {
        if is_json_string_of(text, Params::Standard.variant_name()) {
            Some(Params::Standard)
        } else if is_json_string_of(text, Params::Hardened.variant_name()) {
            Some(Params::Hardened)
        } else if is_json_string_of(text, Params::Paranoid.variant_name()) {
            Some(Params::Paranoid)
        } else {
            None
        }
    }

    /// Different values have different canonical texts.
    pub proof fn law_canonical_is_injective(self, other: Params)
        requires
            self.canonical() == other.canonical(),
        ensures
            self == other,
    {
        Self::lemma_names();
        law_quoted_is_injective(self.name(), other.name());
    }

    /// Decoding the canonical text of a value gives the value back.
    pub proof fn law_round_trip(self)
        ensures
            Params::parsed(self.canonical()) == Some(self),
    {
        if Params::Standard.canonical() == self.canonical() {
            Params::Standard.law_canonical_is_injective(self);
        } else if Params::Hardened.canonical() == self.canonical() {
            Params::Hardened.law_canonical_is_injective(self);
        }
    }
}

/// A JSON object with the one key `name`, whose value has the JSON text
/// `content`.
pub open spec fn tagged(name: Seq<char>, content: Seq<char>) -> Seq<char> {
    seq!['{'] + quoted(name) + seq![':'] + content + seq!['}']
}

/// Puts the JSON text of a name and the JSON text of a value together into
/// the object that has the one as its key and the other as its value.
fn tag(name_json: String, content: String) -> (object: String)
    ensures
        object@ == seq!['{'] + name_json@ + seq![':'] + content@ + seq!['}'],
{
    proof {
        reveal_strlit("{");
        reveal_strlit(":");
        reveal_strlit("}");
        assert("{"@ =~= seq!['{']);
        assert(":"@ =~= seq![':']);
        assert("}"@ =~= seq!['}']);
    }
    let mut object = "{".to_owned();
    object.append(name_json.as_str());
    object.append(":");
    object.append(content.as_str());
    object.append("}");
    object
}

/// The hash function that turns a password into the key of a stored key, and
/// the cost it is run at.
#[derive(Clone, Copy, Debug, PartialEq, Eq, Structural)]
pub enum HashingAlgorithm {
    Argon2id(Params),
    BalloonBlake3(Params),
}

impl HashingAlgorithm {
    /// The name of the variant.
    pub open spec fn name(self) -> Seq<char> {
        match self {
            HashingAlgorithm::Argon2id(_) => "Argon2id"@,
            HashingAlgorithm::BalloonBlake3(_) => "BalloonBlake3"@,
        }
    }

    /// The cost the hash function is run at.
    pub open spec fn params(self) -> Params {
        match self {
            HashingAlgorithm::Argon2id(params) => params,
            HashingAlgorithm::BalloonBlake3(params) => params,
        }
    }

    /// The text under which this value is stored.
    pub open spec fn canonical(self) -> Seq<char> {
        tagged(self.name(), self.params().canonical())
    }

    /// The value that `text` stands for, if it is the canonical text of one.
    pub open spec fn parsed(text: Seq<char>) -> Option<HashingAlgorithm> {
        if text == HashingAlgorithm::Argon2id(Params::Standard).canonical() {
            Some(HashingAlgorithm::Argon2id(Params::Standard))
        } else if text == HashingAlgorithm::Argon2id(Params::Hardened).canonical() {
            Some(HashingAlgorithm::Argon2id(Params::Hardened))
        } else if text == HashingAlgorithm::Argon2id(Params::Paranoid).canonical() {
            Some(HashingAlgorithm::Argon2id(Params::Paranoid))
        } else if text == HashingAlgorithm::BalloonBlake3(Params::Standard).canonical() {
            Some(HashingAlgorithm::BalloonBlake3(Params::Standard))
        } else if text == HashingAlgorithm::BalloonBlake3(Params::Hardened).canonical() {
            Some(HashingAlgorithm::BalloonBlake3(Params::Hardened))
        } else if text == HashingAlgorithm::BalloonBlake3(Params::Paranoid).canonical() {
            Some(HashingAlgorithm::BalloonBlake3(Params::Paranoid))
        } else {
            None
        }
    }

    proof fn lemma_names()
        ensures
            needs_no_escape("Argon2id"@),
            needs_no_escape("BalloonBlake3"@),
            "Argon2id"@.len() == 8,
            "BalloonBlake3"@.len() == 13,
    {
        reveal_strlit("Argon2id");
        reveal_strlit("BalloonBlake3");
    }

    pub fn variant_name(&self) -> (name: &'static str)
        ensures
            name@ == self.name(),
            needs_no_escape(name@),
    {
        proof {
            Self::lemma_names();
        }
        match self {
            HashingAlgorithm::Argon2id(_) => "Argon2id",
            HashingAlgorithm::BalloonBlake3(_) => "BalloonBlake3",
        }
    }

    pub fn cost(&self) -> (params: Params)
        ensures
            params == self.params(),
    {
        match self {
            HashingAlgorithm::Argon2id(params) => *params,
            HashingAlgorithm::BalloonBlake3(params) => *params,
        }
    }

    /// The canonical text of this value.
    pub fn encode(&self) -> (text: Result<String, EncodeError>)
        ensures
            text matches Ok(json) && json@ == self.canonical(),
    {
        let name_json = match encode_name(self.variant_name()) {
            Ok(json) => json,
            Err(error) => { return Err(error); },
        };
        let content = match self.cost().encode() {
            Ok(json) => json,
            Err(error) => { return Err(error); },
        };
        Ok(tag(name_json, content))
    }

    fn is_text_of(text: &str, candidate: HashingAlgorithm) -> (same: bool)
        ensures
            same == (text@ == candidate.canonical()),
    {
        match candidate.encode() {
            Ok(json) => json == text.to_owned(),
            Err(_) => false,
        }
    }

    /// Reads a value back from its canonical text; any other text gives `None`.
    pub fn decode(text: &str) -> (value: Option<HashingAlgorithm>)
        ensures
            value == HashingAlgorithm::parsed(text@),
    {
        if Self::is_text_of(text, HashingAlgorithm::Argon2id(Params::Standard)) {
            Some(HashingAlgorithm::Argon2id(Params::Standard))
        } else if Self::is_text_of(text, HashingAlgorithm::Argon2id(Params::Hardened)) {
            Some(HashingAlgorithm::Argon2id(Params::Hardened))
        } else if Self::is_text_of(text, HashingAlgorithm::Argon2id(Params::Paranoid)) {
            Some(HashingAlgorithm::Argon2id(Params::Paranoid))
        } else if Self::is_text_of(text, HashingAlgorithm::BalloonBlake3(Params::Standard)) {
            Some(HashingAlgorithm::BalloonBlake3(Params::Standard))
        } else if Self::is_text_of(text, HashingAlgorithm::BalloonBlake3(Params::Hardened)) {
            Some(HashingAlgorithm::BalloonBlake3(Params::Hardened))
        } else if Self::is_text_of(text, HashingAlgorithm::BalloonBlake3(Params::Paranoid)) {
            Some(HashingAlgorithm::BalloonBlake3(Params::Paranoid))
        } else {
            None
        }
    }

    /// Different values have different canonical texts.
    pub proof fn law_canonical_is_injective(self, other: HashingAlgorithm)
        requires
            self.canonical() == other.canonical(),
        ensures
            self == other,
    {
        Self::lemma_names();
        Params::lemma_names();
        let mine = self.canonical();
        let theirs = other.canonical();
        assert(mine.len() == self.name().len() + 15);
        assert(theirs.len() == other.name().len() + 15);
        let at: int = self.name().len() as int + 5;
        assert(mine[at] == self.params().name()[0]);
        assert(theirs[at] == other.params().name()[0]);
    }

    /// Decoding the canonical text of a value gives the value back.
    pub proof fn law_round_trip(self)
        ensures
            HashingAlgorithm::parsed(self.canonical()) == Some(self),
    {
        let text = self.canonical();
        if text == HashingAlgorithm::Argon2id(Params::Standard).canonical() {
            HashingAlgorithm::Argon2id(Params::Standard).law_canonical_is_injective(self);
        } else if text == HashingAlgorithm::Argon2id(Params::Hardened).canonical() {
            HashingAlgorithm::Argon2id(Params::Hardened).law_canonical_is_injective(self);
        } else if text == HashingAlgorithm::Argon2id(Params::Paranoid).canonical() {
            HashingAlgorithm::Argon2id(Params::Paranoid).law_canonical_is_injective(self);
        } else if text == HashingAlgorithm::BalloonBlake3(Params::Standard).canonical() {
            HashingAlgorithm::BalloonBlake3(Params::Standard).law_canonical_is_injective(self);
        } else if text == HashingAlgorithm::BalloonBlake3(Params::Hardened).canonical() {
            HashingAlgorithm::BalloonBlake3(Params::Hardened).law_canonical_is_injective(self);
        }
    }
}

} // verus!

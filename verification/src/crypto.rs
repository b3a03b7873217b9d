//! Password hashing with Argon2 (default parameters) in the PHC string
//! format, through the `argon2` and `password-hash` crates.

use vstd::prelude::*;

use argon2::password_hash::{PasswordHasher, PasswordVerifier};
use vstd::string::StringSliceAdditionalSpecFns;

verus! {

/// What hashing `password` with Argon2's default parameters and the salt
/// whose B64 text is `salt` gives: the PHC string of the hash, or the
/// message of the error.
pub uninterp spec fn argon2_hash_outcome(password: Seq<u8>, salt: Seq<char>) -> Result<Seq<char>, Seq<char>>;

/// What parsing `phc` as a PHC string in B64 encoding gives: nothing, or
/// the message of the error.
pub uninterp spec fn phc_parse_outcome(phc: Seq<char>) -> Result<(), Seq<char>>;

/// Whether Argon2 accepts `password` against the PHC string `phc` parsed in
/// the B64 encoding; `false` where `phc` does not parse.
pub uninterp spec fn argon2_verifies(password: Seq<u8>, phc: Seq<char>) -> bool;

/// Whether `c` belongs to the B64 alphabet (standard Base64 without
/// padding): `A`-`Z`, `a`-`z`, `0`-`9`, `+` and `/`.
pub open spec fn is_b64_char(c: char) -> bool {
    ('A' <= c && c <= 'Z') || ('a' <= c && c <= 'z') || ('0' <= c && c <= '9') || c == '+'
        || c == '/'
}

/// Whether `s` has the shape of a generated salt's text: 22 characters of
/// the B64 alphabet, the encoding of 16 bytes.
pub open spec fn is_salt_text(s: Seq<char>) -> bool {
    s.len() == 22 && forall|i: int| 0 <= i < 22 ==> is_b64_char(#[trigger] s[i])
}

/// Calls `password_hash::SaltString::generate` with the operating system's
/// random number generator and copies the salt's text out of it with
/// `SaltString::as_str`. Claims what holds of every salt it can give: it
/// encodes `Salt::RECOMMENDED_LENGTH` (16) random bytes in unpadded B64,
/// which is 22 characters of the B64 alphabet. The bytes themselves are
/// random and not stated.
#[verifier::external_body]
fn generate_salt() -> (r: String)
    ensures
        is_salt_text(r@),
{
    password_hash::SaltString::generate(&mut password_hash::rand_core::OsRng).as_str().to_owned()
}

/// Calls `password_hash::Salt::from_b64` on `salt`, then
/// `argon2::Argon2::hash_password` with `Argon2::default()` and that salt,
/// and serialises the hash. Claims that the outcome (the PHC string, or
/// the error's message) is [`argon2_hash_outcome`] of the password's bytes
/// and the salt text: reading the salt and Argon2 with fixed parameters
/// are deterministic. Claims too that a PHC string it gives parses back in
/// the B64 encoding: it is the text of a `PasswordHashString`, which
/// `password_hash` documents as "ensured to parse successfully", and its
/// output is B64-encoded.
#[verifier::external_body]
fn argon2_hash(password: &[u8], salt: &str) -> (r: Result<String, String>)
    ensures
        match argon2_hash_outcome(password@, salt@) {
            Ok(h) => r matches Ok(s) && s@ == h,
            Err(m) => r matches Err(s) && s@ == m,
        },
        r matches Ok(s) ==> phc_parse_outcome(s@) is Ok,
{
    let salt = match password_hash::Salt::from_b64(salt) {
        Ok(v) => v,
        Err(e) => return Err(e.to_string()),
    };
    match argon2::Argon2::default().hash_password(password, salt) {
        Ok(h) => Ok(h.serialize().as_str().to_owned()),
        Err(e) => Err(e.to_string()),
    }
}

/// Calls `password_hash::PasswordHash::parse` with the B64 encoding.
/// Claims that success and the error's message are
/// [`phc_parse_outcome`] of the text.
#[verifier::external_body]
fn parse_phc(phc: &str) -> (r: Result<(), String>)
    ensures
        match phc_parse_outcome(phc@) {
            Ok(()) => r is Ok,
            Err(m) => r matches Err(s) && s@ == m,
        },
{
    match password_hash::PasswordHash::parse(phc, password_hash::Encoding::B64) {
        Ok(_) => Ok(()),
        Err(e) => Err(e.to_string()),
    }
}

/// Calls `password_hash::PasswordHash::parse` on `phc` with the B64
/// encoding, then `argon2::Argon2::verify_password` with
/// `Argon2::default()` on the parse; a text that does not parse is not
/// accepted. Claims that the answer is [`argon2_verifies`] of the
/// password's bytes and the text, and that a password is accepted against
/// a hash that Argon2 made of it with some salt: such a text parses (it is
/// a `PasswordHashString`'s), and verification recomputes the hash with the
/// salt and the parameters that it records and compares.
#[verifier::external_body]
fn argon2_verify(password: &[u8], phc: &str) -> (r: bool)
    ensures
        r == argon2_verifies(password@, phc@),
        (exists|s: Seq<char>| argon2_hash_outcome(password@, s) == Ok::<Seq<char>, Seq<char>>(phc@)) ==> r,
{
    match password_hash::PasswordHash::parse(phc, password_hash::Encoding::B64) {
        Ok(h) => argon2::Argon2::default().verify_password(password, &h).is_ok(),
        Err(_) => false,
    }
}

/// Why hashing or verifying a password failed.
#[derive(Debug)]
pub enum Error {
    HashError(String),
    WrongPassword,
}

impl Error {
    /// The error as text.
    pub fn to_string(&self) -> (r: String)
        ensures
            match self {
                Error::HashError(m) => r@ == "hash error: "@ + m@,
                Error::WrongPassword => r@ == "password doesn't match"@,
            },
    {
        match self {
            Error::HashError(m) => {
                let mut s = String::from_str("hash error: ");
                s.append(m.as_str());
                s
            },
            Error::WrongPassword => String::from_str("password doesn't match"),
        }
    }
}

/// A generated salt: its B64 text.
pub struct Salt {
    text: String,
}

impl View for Salt {
    type V = Seq<char>;

    /// The salt's B64 text.
    closed spec fn view(&self) -> Seq<char> {
        self.text@
    }
}

impl Salt {
    #[verifier::type_invariant]
    closed spec fn inv(self) -> bool {
        is_salt_text(self.text@)
    }

    /// Borrows the salt's B64 text.
    pub fn as_str(&self) -> (r: &str)
        ensures
            r@ == self@,
            is_salt_text(r@),
    {
        proof { use_type_invariant(self); }
        self.text.as_str()
    }
}

/// A PHC hash string that parses in the B64 encoding.
pub struct ParsedHash<'a> {
    text: &'a str,
}

impl<'a> View for ParsedHash<'a> {
    type V = Seq<char>;

    /// The PHC text.
    closed spec fn view(&self) -> Seq<char> {
        self.text@
    }
}

impl<'a> ParsedHash<'a> {
    #[verifier::type_invariant]
    closed spec fn inv(self) -> bool {
        phc_parse_outcome(self.text@) is Ok
    }

    /// Borrows the PHC text.
    pub fn as_str(&self) -> (r: &'a str)
        ensures
            r@ == self@,
            phc_parse_outcome(r@) is Ok,
    {
        proof { use_type_invariant(self); }
        self.text
    }
}

/// Hashes `password` with the given salt.
pub fn hash_password_with_salt(password: &str, salt: &Salt) -> (r: Result<String, Error>)
    ensures
        match argon2_hash_outcome(password.spec_bytes(), salt@) {
            Ok(h) => r matches Ok(s) && s@ == h,
            Err(m) => r matches Err(Error::HashError(s)) && s@ == m,
        },
        r matches Ok(s) ==> phc_parse_outcome(s@) is Ok,
{
    match argon2_hash(password.as_bytes(), salt.text.as_str()) {
        Ok(h) => Ok(h),
        Err(m) => Err(Error::HashError(m)),
    }
}

/// A fresh random salt: 22 characters of the B64 alphabet.
pub fn new_salt() -> (r: Salt)
    ensures
        is_salt_text(r@),
{
    Salt { text: generate_salt() }
}

/// Hashes `password` with a fresh random salt.
pub fn hash_password(password: &str) -> (r: Result<String, Error>)
    ensures
        r matches Ok(h) ==> exists|s: Seq<char>| is_salt_text(s)
            && argon2_hash_outcome(password.spec_bytes(), s) == Ok::<Seq<char>, Seq<char>>(h@),
        r matches Ok(h) ==> phc_parse_outcome(h@) is Ok,
        r matches Err(e) ==> e matches Error::HashError(m) && exists|s: Seq<char>| is_salt_text(s)
            && argon2_hash_outcome(password.spec_bytes(), s) == Err::<Seq<char>, Seq<char>>(m@),
{
    let salt = new_salt();
    let r = hash_password_with_salt(password, &salt);
    assert(r matches Ok(h) ==> argon2_hash_outcome(password.spec_bytes(), salt@)
        == Ok::<Seq<char>, Seq<char>>(h@));
    assert(r matches Err(Error::HashError(m)) ==> argon2_hash_outcome(password.spec_bytes(), salt@)
        == Err::<Seq<char>, Seq<char>>(m@));
    r
}

/// Checks `password` against a parsed hash.
pub fn verify_password(password: &str, hash: &ParsedHash) -> (r: Result<(), Error>)
    ensures
        r is Ok <==> argon2_verifies(password.spec_bytes(), hash@),
        r matches Err(e) ==> e is WrongPassword,
        (exists|s: Seq<char>|
            argon2_hash_outcome(password.spec_bytes(), s) == Ok::<Seq<char>, Seq<char>>(hash@)) ==> r is Ok,
{
    if argon2_verify(password.as_bytes(), hash.text) {
        Ok(())
    } else {
        Err(Error::WrongPassword)
    }
}

/// Parses a PHC hash string in B64 encoding.
pub fn deserialize_hash<'a>(hash: &'a str) -> (r: Result<ParsedHash<'a>, Error>)
    ensures
        match phc_parse_outcome(hash@) {
            Ok(()) => r matches Ok(h) && h@ == hash@,
            Err(m) => r matches Err(Error::HashError(s)) && s@ == m,
        },
{
    match parse_phc(hash) {
        Ok(()) => Ok(ParsedHash { text: hash }),
        Err(m) => Err(Error::HashError(m)),
    }
}

} // verus!

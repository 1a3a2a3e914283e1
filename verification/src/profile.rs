//! Rules for the fields of a user profile.
//!
//! Lengths are counted in bytes of the UTF-8 encoding.

use vstd::prelude::*;
use vstd::utf8::encode_utf8;

verus! {

/// Longest accepted name.
pub const MAX_NAME_LENGTH: usize = 100;

/// Longest accepted email address.
pub const MAX_EMAIL_LENGTH: usize = 320;

/// Shortest accepted email address.
pub const MIN_EMAIL_LENGTH: usize = 5;

/// The one length at which an email address is rejected as malformed.
pub const REJECTED_EMAIL_LENGTH: usize = 13;

/// Longest accepted profession.
pub const MAX_PROFESSION_LENGTH: usize = 100;

/// Longest accepted country name.
pub const MAX_COUNTRY_LENGTH: usize = 56;

/// Longest accepted statement of purpose.
pub const MAX_PURPOSE_LENGTH: usize = 500;

/// Shortest accepted password.
pub const MIN_PASSWORD_LENGTH: u32 = 8;

/// Longest accepted password.
pub const MAX_PASSWORD_LENGTH: u32 = 128;

/// Why a profile field was rejected.
#[derive(Clone, Copy, Debug, PartialEq, Eq, Structural)]
pub enum ProfileValidationError {
    NameTooLong,
    NameEmpty,
    EmailTooLong,
    EmailEmpty,
    EmailInvalidFormat,
    ProfessionTooLong,
    CountryTooLong,
    PurposeTooLong,
    PasswordTooShort,
    PasswordTooLong,
    InvalidUrl,
}

/// The length of `text` in bytes.
pub open spec fn byte_len(text: Seq<char>) -> nat {
    encode_utf8(text).len()
}

/// The bytes of `http://`.
pub open spec fn http_prefix() -> Seq<u8> {
    seq![104u8, 116u8, 116u8, 112u8, 58u8, 47u8, 47u8]
}

/// The bytes of `https://`.
pub open spec fn https_prefix() -> Seq<u8> {
    seq![104u8, 116u8, 116u8, 112u8, 115u8, 58u8, 47u8, 47u8]
}

/// `bytes` begins with `prefix`.
pub open spec fn starts_with(bytes: Seq<u8>, prefix: Seq<u8>) -> bool {
    prefix.len() <= bytes.len() && bytes.subrange(0, prefix.len() as int) == prefix
}

/// The verdict on a required text of at most `max_len` bytes.
pub open spec fn content_verdict(len: nat, max_len: nat) -> Result<(), ProfileValidationError> {
    if len == 0 {
        Err(ProfileValidationError::NameEmpty)
    } else if len > max_len {
        Err(ProfileValidationError::NameTooLong)
    } else {
        Ok(())
    }
}

/// The verdict on an email address of `len` bytes.
pub open spec fn email_verdict(len: nat) -> Result<(), ProfileValidationError> {
    if len == 0 {
        Err(ProfileValidationError::EmailEmpty)
    } else if len < MIN_EMAIL_LENGTH || len > MAX_EMAIL_LENGTH {
        Err(ProfileValidationError::EmailTooLong)
    } else if len == REJECTED_EMAIL_LENGTH {
        Err(ProfileValidationError::EmailInvalidFormat)
    } else {
        Ok(())
    }
}

/// The verdict on an optional text: absent and empty texts pass, others
/// must not exceed `max_len` bytes.
pub open spec fn optional_verdict(
    text: Option<String>,
    max_len: nat,
    too_long: ProfileValidationError,
) -> Result<(), ProfileValidationError> {
    match text {
        Some(t) => if byte_len(t@) > max_len {
            Err(too_long)
        } else {
            Ok(())
        },
        None => Ok(()),
    }
}

/// The verdict on a password of `len` bytes.
pub open spec fn password_verdict(len: nat) -> Result<(), ProfileValidationError> {
    if len < MIN_PASSWORD_LENGTH {
        Err(ProfileValidationError::PasswordTooShort)
    } else if len > MAX_PASSWORD_LENGTH {
        Err(ProfileValidationError::PasswordTooLong)
    } else {
        Ok(())
    }
}

/// The verdict on a URL: empty passes, as does anything that begins with
/// `http://` or `https://`.
pub open spec fn url_verdict(bytes: Seq<u8>) -> Result<(), ProfileValidationError> {
    if bytes.len() == 0 || starts_with(bytes, http_prefix()) || starts_with(bytes, https_prefix()) {
        Ok(())
    } else {
        Err(ProfileValidationError::InvalidUrl)
    }
}

/// The first failure among the verdicts on the basic fields, in the order
/// name, email, profession, country, purpose.
pub open spec fn basic_verdict(
    name: Seq<char>,
    email: Seq<char>,
    profession: Option<String>,
    country: Option<String>,
    purpose: Option<String>,
) -> Result<(), ProfileValidationError> {
    if content_verdict(byte_len(name), MAX_NAME_LENGTH as nat) is Err {
        content_verdict(byte_len(name), MAX_NAME_LENGTH as nat)
    } else if email_verdict(byte_len(email)) is Err {
        email_verdict(byte_len(email))
    } else if optional_verdict(
        profession,
        MAX_PROFESSION_LENGTH as nat,
        ProfileValidationError::ProfessionTooLong,
    ) is Err {
        Err(ProfileValidationError::ProfessionTooLong)
    } else if optional_verdict(
        country,
        MAX_COUNTRY_LENGTH as nat,
        ProfileValidationError::CountryTooLong,
    ) is Err {
        Err(ProfileValidationError::CountryTooLong)
    } else {
        optional_verdict(purpose, MAX_PURPOSE_LENGTH as nat, ProfileValidationError::PurposeTooLong)
    }
}

fn text_len(text: &String) -> (len: usize)
    ensures
        len == byte_len(text@),
{
    text.as_str().as_bytes().len()
}

/// Checks a required text: it must not be empty nor longer than `max_len`.
pub fn validate_string_content(s: &String, max_len: usize) -> (outcome: Result<
    (),
    ProfileValidationError,
>)
    ensures
        outcome == content_verdict(byte_len(s@), max_len as nat),
{
    let len: usize = text_len(s);
    if len == 0 {
        return Err(ProfileValidationError::NameEmpty);
    }
    if len > max_len {
        return Err(ProfileValidationError::NameTooLong);
    }
    Ok(())
}

/// Checks a name: it must not be empty nor longer than [`MAX_NAME_LENGTH`].
pub fn validate_name(name: &String) -> (outcome: Result<(), ProfileValidationError>)
    ensures
        outcome == content_verdict(byte_len(name@), MAX_NAME_LENGTH as nat),
{
    validate_string_content(name, MAX_NAME_LENGTH)
}

/// Checks an email address by its length alone: empty is `EmailEmpty`,
/// shorter than [`MIN_EMAIL_LENGTH`] or longer than [`MAX_EMAIL_LENGTH`] is
/// `EmailTooLong`, and exactly [`REJECTED_EMAIL_LENGTH`] is
/// `EmailInvalidFormat`.
pub fn validate_email(email: &String) -> (outcome: Result<(), ProfileValidationError>)
    ensures
        outcome == email_verdict(byte_len(email@)),
{
    let len: usize = text_len(email);
    if len == 0 {
        return Err(ProfileValidationError::EmailEmpty);
    }
    if len < MIN_EMAIL_LENGTH || len > MAX_EMAIL_LENGTH {
        return Err(ProfileValidationError::EmailTooLong);
    }
    if len == REJECTED_EMAIL_LENGTH {
        return Err(ProfileValidationError::EmailInvalidFormat);
    }
    Ok(())
}

fn validate_optional(text: &Option<String>, max_len: usize, too_long: ProfileValidationError) -> (outcome:
    Result<(), ProfileValidationError>)
    ensures
        outcome == optional_verdict(*text, max_len as nat, too_long),
{
    match text {
        Some(t) => {
            if text_len(t) > max_len {
                Err(too_long)
            } else {
                Ok(())
            }
        },
        None => Ok(()),
    }
}

/// Checks a profession, if one is given.
pub fn validate_profession(profession: &Option<String>) -> (outcome: Result<
    (),
    ProfileValidationError,
>)
    ensures
        outcome == optional_verdict(
            *profession,
            MAX_PROFESSION_LENGTH as nat,
            ProfileValidationError::ProfessionTooLong,
        ),
{
    validate_optional(profession, MAX_PROFESSION_LENGTH, ProfileValidationError::ProfessionTooLong)
}

/// Checks a country, if one is given.
pub fn validate_country(country: &Option<String>) -> (outcome: Result<(), ProfileValidationError>)
    ensures
        outcome == optional_verdict(
            *country,
            MAX_COUNTRY_LENGTH as nat,
            ProfileValidationError::CountryTooLong,
        ),
{
    validate_optional(country, MAX_COUNTRY_LENGTH, ProfileValidationError::CountryTooLong)
}

/// Checks a statement of purpose, if one is given.
pub fn validate_purpose(purpose: &Option<String>) -> (outcome: Result<(), ProfileValidationError>)
    ensures
        outcome == optional_verdict(
            *purpose,
            MAX_PURPOSE_LENGTH as nat,
            ProfileValidationError::PurposeTooLong,
        ),
{
    validate_optional(purpose, MAX_PURPOSE_LENGTH, ProfileValidationError::PurposeTooLong)
}

/// Checks the length of a password.
pub fn validate_password(password: &String) -> (outcome: Result<(), ProfileValidationError>)
    ensures
        outcome == password_verdict(byte_len(password@)),
{
    let len: usize = text_len(password);
    if len < 8 {
        return Err(ProfileValidationError::PasswordTooShort);
    }
    if len > 128 {
        return Err(ProfileValidationError::PasswordTooLong);
    }
    Ok(())
}

/// Checks a URL: it must be empty or begin with `http://` or `https://`.
pub fn validate_url(url: &String) -> (outcome: Result<(), ProfileValidationError>)
    ensures
        outcome == url_verdict(encode_utf8(url@)),
{
    let bytes = url.as_str().as_bytes();
    let len: usize = bytes.len();
    if len == 0 {
        return Ok(());
    }
    let scheme: bool = len >= 7 && bytes[0] == 104 && bytes[1] == 116 && bytes[2] == 116
        && bytes[3] == 112;
    let plain: bool = scheme && bytes[4] == 58 && bytes[5] == 47 && bytes[6] == 47;
    let secure: bool = scheme && len >= 8 && bytes[4] == 115 && bytes[5] == 58 && bytes[6] == 47
        && bytes[7] == 47;
    proof {
        let b = bytes@;
        if b.len() >= 7 {
            let head = b.subrange(0, 7);
            assert(plain <==> head =~= http_prefix());
        }
        if b.len() >= 8 {
            let head = b.subrange(0, 8);
            assert(secure <==> head =~= https_prefix());
        }
    }
    if plain || secure {
        Ok(())
    } else {
        Err(ProfileValidationError::InvalidUrl)
    }
}

/// Checks of whole profiles.
pub struct ProfileValidator;

impl ProfileValidator {
    /// Checks name, email, profession, country and purpose, in that order,
    /// and reports the first failure.
    pub fn validate_basic_profile(
        name: &String,
        email: &String,
        profession: &Option<String>,
        country: &Option<String>,
        purpose: &Option<String>,
    ) -> (outcome: Result<(), ProfileValidationError>)
        ensures
            outcome == basic_verdict(name@, email@, *profession, *country, *purpose),
    {
        match validate_name(name) {
            Err(e) => {
                return Err(e);
            },
            Ok(_) => {},
        }
        match validate_email(email) {
            Err(e) => {
                return Err(e);
            },
            Ok(_) => {},
        }
        match validate_profession(profession) {
            Err(e) => {
                return Err(e);
            },
            Ok(_) => {},
        }
        match validate_country(country) {
            Err(e) => {
                return Err(e);
            },
            Ok(_) => {},
        }
        validate_purpose(purpose)
    }

    /// Checks the basic fields and then the password.
    pub fn validate_profile_with_password(
        name: &String,
        email: &String,
        password: &String,
        profession: &Option<String>,
        country: &Option<String>,
        purpose: &Option<String>,
    ) -> (outcome: Result<(), ProfileValidationError>)
        ensures
            outcome == if basic_verdict(
                name@,
                email@,
                *profession,
                *country,
                *purpose,
            ) is Err {
                basic_verdict(name@, email@, *profession, *country, *purpose)
            } else {
                password_verdict(byte_len(password@))
            },
    {
        match Self::validate_basic_profile(name, email, profession, country, purpose) {
            Err(e) => {
                return Err(e);
            },
            Ok(_) => {},
        }
        validate_password(password)
    }

    /// Checks the basic fields and then the picture URL, if one is given.
    pub fn validate_profile_with_url(
        name: &String,
        email: &String,
        profession: &Option<String>,
        country: &Option<String>,
        purpose: &Option<String>,
        profile_picture_url: &Option<String>,
    ) -> (outcome: Result<(), ProfileValidationError>)
        ensures
            outcome == if basic_verdict(
                name@,
                email@,
                *profession,
                *country,
                *purpose,
            ) is Err {
                basic_verdict(name@, email@, *profession, *country, *purpose)
            } else {
                match *profile_picture_url {
                    Some(url) => url_verdict(encode_utf8(url@)),
                    None => Ok(()),
                }
            },
    {
        match Self::validate_basic_profile(name, email, profession, country, purpose) {
            Err(e) => {
                return Err(e);
            },
            Ok(_) => {},
        }
        match profile_picture_url {
            Some(url) => validate_url(url),
            None => Ok(()),
        }
    }
}

/// The text as given; nothing is stripped or escaped.
pub fn sanitize_string(input: &String) -> (output: String)
    ensures
        output@ == input@,
{
    input.clone()
}

/// The name under which a profile is shown: the full name as given.
pub fn generate_display_name(full_name: &String) -> (shown: String)
    ensures
        shown@ == full_name@,
{
    full_name.clone()
}

/// Whether two profiles cannot coexist: they do not if they share the
/// email address. Names are free to coincide.
pub fn profiles_conflict(email1: &String, email2: &String, name1: &String, name2: &String) -> (conflict:
    bool)
    ensures
        conflict == (email1@ == email2@),
{
    *email1 == *email2
}

/// The fields that every profile has.
#[derive(Debug, PartialEq, Eq)]
pub struct BasicProfile {
    pub full_name: String,
    pub contact_email: String,
    pub profession: Option<String>,
    pub country: Option<String>,
    pub purpose: Option<String>,
}

impl BasicProfile {
    /// A profile of the given fields, provided they pass the basic checks.
    pub fn new(
        full_name: String,
        contact_email: String,
        profession: Option<String>,
        country: Option<String>,
        purpose: Option<String>,
    ) -> (outcome: Result<Self, ProfileValidationError>)
        ensures
            match outcome {
                Ok(profile) => basic_verdict(
                    full_name@,
                    contact_email@,
                    profession,
                    country,
                    purpose,
                ) is Ok && profile == (BasicProfile {
                    full_name,
                    contact_email,
                    profession,
                    country,
                    purpose,
                }),
                Err(e) => basic_verdict(
                    full_name@,
                    contact_email@,
                    profession,
                    country,
                    purpose,
                ) == Err::<(), ProfileValidationError>(e),
            },
    {
        match ProfileValidator::validate_basic_profile(
            &full_name,
            &contact_email,
            &profession,
            &country,
            &purpose,
        ) {
            Err(e) => Err(e),
            Ok(_) => Ok(BasicProfile { full_name, contact_email, profession, country, purpose }),
        }
    }

    /// Checks the fields of this profile.
    pub fn validate(&self) -> (outcome: Result<(), ProfileValidationError>)
        ensures
            outcome == basic_verdict(
                self.full_name@,
                self.contact_email@,
                self.profession,
                self.country,
                self.purpose,
            ),
    {
        ProfileValidator::validate_basic_profile(
            &self.full_name,
            &self.contact_email,
            &self.profession,
            &self.country,
            &self.purpose,
        )
    }
}

} // verus!

//! Small helpers around the client: endpoint addresses and the names of
//! throw-away accounts.

use crate::error::Error;
use crate::text::{decimal, lemma_decimal_digits, lemma_decimal_len, push_decimal};
use crate::types::{is_name_char, is_separator, valid_account_id, AccountId};
use vstd::prelude::*;
use vstd::string::*;

verus! {

/// `url::ParseError`, the error with which `url::Url::parse` refuses a
/// text. Nothing is claimed of what a value of it holds.
#[verifier::external_type_specification]
#[verifier::external_body]
pub struct ExParseError(url::ParseError);

/// What `url::Url::parse` makes of a text: the serialization of the URL it
/// reads from it, or `None` where it reads none.
pub uninterp spec fn parsed_url(input: Seq<char>) -> Option<Seq<char>>;

/// Calls `url::Url::parse` on `input` and hands back the serialization of
/// the parsed URL. The contract only names the outcome: the parser reads
/// its argument and nothing else, so the same text always parses alike.
#[verifier::external_body]
pub(crate) fn parse_url(input: &str) -> (r: Result<String, url::ParseError>)
    ensures
        r matches Ok(text) ==> parsed_url(input@) == Some(text@),
        r is Err ==> parsed_url(input@) is None,
{
    url::Url::parse(input).map(String::from)
}

/// The text of the error for a helper address that is no URL.
pub open spec fn bad_endpoint_text() -> Seq<char> {
    "helper endpoint is not a valid URL"@
}

/// Judges a parsed helper address: a URL is passed on in its serialized
/// form, and a parse failure becomes a helper-service error.
pub fn endpoint_from(parsed: Result<String, url::ParseError>) -> (r: Result<String, Error>)
    ensures
        parsed matches Ok(text) ==> r == Ok::<String, Error>(text),
        parsed is Err ==> (r matches Err(Error::HelperServiceError(reason)) && reason@
            == bad_endpoint_text()),
{
    match parsed {
        Ok(text) => Ok(text),
        Err(_) => Err(
            Error::HelperServiceError(String::from_str("helper endpoint is not a valid URL")),
        ),
    }
}

/// Reads `address` as a URL and gives its serialized form, or a
/// helper-service error where it is none.
pub fn helper_endpoint(address: &str) -> (r: Result<String, Error>)
    ensures
        match parsed_url(address@) {
            Some(text) => r matches Ok(endpoint) && endpoint@ == text,
            None => r matches Err(Error::HelperServiceError(reason)) && reason@
                == bad_endpoint_text(),
        },
{
    endpoint_from(parse_url(address))
}

/// The name of a throw-away account: `dev-`, a time stamp, a dash, and a
/// number that tells apart accounts made at the same moment.
pub open spec fn dev_account_name(stamp: u64, salt: u64) -> Seq<char> {
    seq!['d', 'e', 'v', '-'] + decimal(stamp as nat) + seq!['-'] + decimal(salt as nat)
}

/// Every throw-away name obeys the naming rules and is top-level.
pub proof fn lemma_dev_account_name_valid(stamp: u64, salt: u64)
    ensures
        valid_account_id(dev_account_name(stamp, salt)),
        crate::types::is_top_level_name(dev_account_name(stamp, salt)),
{
    let a = decimal(stamp as nat);
    let b = decimal(salt as nat);
    let s = dev_account_name(stamp, salt);
    lemma_decimal_digits(stamp as nat);
    lemma_decimal_digits(salt as nat);
    lemma_decimal_len(stamp as nat);
    lemma_decimal_len(salt as nat);
    let la = a.len() as int;
    let lb = b.len() as int;
    assert(s.len() == 4 + la + 1 + lb);
    assert forall|i: int| 0 <= i < s.len() implies (is_name_char(#[trigger] s[i]) || s[i] == '-')
        && (s[i] == '-' <==> (i == 3 || i == 4 + la)) && s[i] != '.' by {
        if i < 4 {
            assert(s[i] == seq!['d', 'e', 'v', '-'][i]);
        } else if i < 4 + la {
            assert(s[i] == a[i - 4]);
        } else if i == 4 + la {
            assert(s[i] == '-');
        } else {
            assert(s[i] == b[i - 5 - la]);
        }
    }
    assert forall|i: int| 0 <= i < s.len() - 1 implies !(is_separator(#[trigger] s[i])
        && is_separator(s[i + 1])) by {
        assert(is_name_char(s[i + 1]) || s[i + 1] == '-');
    }
    assert(is_name_char(s[0]) || s[0] == '-');
    assert(is_name_char(s[s.len() - 1]) || s[s.len() - 1] == '-');
}

/// Names a throw-away account after a time stamp and a salt, both chosen
/// by the caller.
pub fn dev_account_id(stamp: u64, salt: u64) -> (id: AccountId)
    ensures
        id@ == dev_account_name(stamp, salt),
{
    proof {
        reveal_strlit("dev-");
        reveal_strlit("-");
        lemma_dev_account_name_valid(stamp, salt);
    }
    let mut text = String::from_str("dev-");
    push_decimal(&mut text, stamp);
    text.append("-");
    push_decimal(&mut text, salt);
    assert(text@ =~= dev_account_name(stamp, salt));
    AccountId::from_str(text.as_str()).unwrap()
}

} // verus!

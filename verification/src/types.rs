//! Account identifiers and the key material that signs for them.

use vstd::prelude::*;
use vstd::string::*;

verus! {

/// Shortest account identifier the network accepts.
pub const MIN_ACCOUNT_ID_LEN: usize = 2;

/// Longest account identifier the network accepts.
pub const MAX_ACCOUNT_ID_LEN: usize = 64;

const LOWER_A: u8 = 0x61;

const LOWER_Z: u8 = 0x7a;

const DIGIT_0: u8 = 0x30;

const DIGIT_9: u8 = 0x39;

const DASH: u8 = 0x2d;

const UNDERSCORE: u8 = 0x5f;

const DOT: u8 = 0x2e;

/// Characters that carry a name: lower-case letters and digits.
pub open spec fn is_name_char(c: char) -> bool {
    ('a' <= c <= 'z') || ('0' <= c <= '9')
}

/// Characters that join the parts of a name. The dot separates the levels
/// of the namespace.
pub open spec fn is_separator(c: char) -> bool {
    c == '-' || c == '_' || c == '.'
}

/// The naming rules of the network: between two and sixty-four characters,
/// each a name character or a separator, with no separator first, last, or
/// next to another one.
pub open spec fn valid_account_id(s: Seq<char>) -> bool {
    &&& MIN_ACCOUNT_ID_LEN <= s.len() <= MAX_ACCOUNT_ID_LEN
    &&& forall|i: int| 0 <= i < s.len() ==> is_name_char(#[trigger] s[i]) || is_separator(s[i])
    &&& !is_separator(s[0])
    &&& !is_separator(s[s.len() - 1])
    &&& forall|i: int|
        0 <= i < s.len() - 1 ==> !(is_separator(#[trigger] s[i]) && is_separator(s[i + 1]))
}

/// An identifier without a dot names a top-level account.
pub open spec fn is_top_level_name(s: Seq<char>) -> bool {
    forall|i: int| 0 <= i < s.len() ==> #[trigger] s[i] != '.'
}

/// The identifier of the account `name` directly under `parent`.
pub open spec fn subaccount_name(name: Seq<char>, parent: Seq<char>) -> Seq<char> {
    name + seq!['.'] + parent
}

/// A validated account identifier in its canonical textual form.
#[derive(Debug, PartialEq, Eq, Hash)]
pub struct AccountId {
    name: String,
}

impl View for AccountId {
    type V = Seq<char>;

    closed spec fn view(&self) -> Seq<char> {
        self.name@
    }
}

impl AccountId {
    /// Every value of the type obeys the naming rules.
    #[verifier::type_invariant]
    closed spec fn well_formed(&self) -> bool {
        valid_account_id(self.name@)
    }

    /// Parses an identifier, accepting exactly the texts that obey the
    /// naming rules.
    pub fn from_str(s: &str) -> (r: Option<AccountId>)
        ensures
            r is Some <==> valid_account_id(s@),
            r matches Some(id) ==> id@ == s@,
    {
        if !s.is_ascii() {
            proof {
                let i = choose|i: int| 0 <= i < s@.len() && !('\0' <= #[trigger] s@[i] <= '\u{7f}');
                assert(!is_name_char(s@[i]) && !is_separator(s@[i]));
            }
            return None;
        }
        let n: usize = s.unicode_len();
        if n < MIN_ACCOUNT_ID_LEN || n > MAX_ACCOUNT_ID_LEN {
            return None;
        }
        let mut i: usize = 0;
        let mut after_separator: bool = true;
        while i < n
            invariant
                s.is_ascii(),
                n == s@.len(),
                i <= n,
                forall|j: int| 0 <= j < i ==> is_name_char(#[trigger] s@[j]) || is_separator(s@[j]),
                forall|j: int|
                    0 <= j < i - 1 ==> !(is_separator(#[trigger] s@[j]) && is_separator(s@[j + 1])),
                i > 0 ==> !is_separator(s@[0]),
                after_separator == (i == 0 || is_separator(s@[i - 1])),
            decreases n - i,
        {
            let b: u8 = s.get_ascii(i);
            let c: Ghost<char> = Ghost(s@[i as int]);
            assert('\0' <= c@ <= '\u{7f}');
            let name_char: bool = (LOWER_A <= b && b <= LOWER_Z) || (DIGIT_0 <= b && b <= DIGIT_9);
            let separator: bool = b == DASH || b == UNDERSCORE || b == DOT;
            assert(name_char == is_name_char(c@));
            assert(separator == is_separator(c@));
            if !name_char && !separator {
                return None;
            }
            if separator && after_separator {
                proof {
                    if i > 0 {
                        assert(is_separator(s@[i - 1]) && is_separator(s@[i - 1 + 1]));
                    }
                }
                return None;
            }
            after_separator = separator;
            i = i + 1;
        }
        if after_separator {
            return None;
        }
        Some(AccountId { name: String::from_str(s) })
    }

    /// The canonical text of the identifier, which obeys the naming rules.
    pub fn as_str(&self) -> (text: &str)
        ensures
            text@ == self@,
            valid_account_id(self@),
    {
        proof {
            use_type_invariant(self);
        }
        self.name.as_str()
    }

    /// The canonical text of the identifier, owned.
    pub fn to_string(&self) -> (text: String)
        ensures
            text@ == self@,
    {
        self.name.clone()
    }

    /// Whether the identifier names a top-level account, one with no parent
    /// namespace.
    pub fn is_top_level(&self) -> (r: bool)
        ensures
            r == is_top_level_name(self@),
    {
        let text = self.as_str();
        if !text.is_ascii() {
            proof {
                let i = choose|i: int|
                    0 <= i < text@.len() && !('\0' <= #[trigger] text@[i] <= '\u{7f}');
                assert(!is_name_char(text@[i]) && !is_separator(text@[i]));
            }
            return true;
        }
        let n: usize = text.unicode_len();
        let mut i: usize = 0;
        while i < n
            invariant
                text.is_ascii(),
                text@ == self@,
                n == text@.len(),
                i <= n,
                forall|j: int| 0 <= j < i ==> #[trigger] text@[j] != '.',
            decreases n - i,
        {
            let b: u8 = text.get_ascii(i);
            assert('\0' <= text@[i as int] <= '\u{7f}');
            if b == DOT {
                assert(text@[i as int] == '.');
                return false;
            }
            i = i + 1;
        }
        true
    }

    /// The identifier of the account `name` directly under this one:
    /// `name`, a dot, and this identifier. `None` when that text breaks the
    /// naming rules.
    pub fn subaccount(&self, name: &str) -> (r: Option<AccountId>)
        ensures
            r is Some <==> valid_account_id(subaccount_name(name@, self@)),
            r matches Some(id) ==> id@ == subaccount_name(name@, self@),
    {
        proof {
            reveal_strlit(".");
        }
        let text = String::from_str(name).concat(".").concat(self.as_str());
        assert(text@ =~= subaccount_name(name@, self@));
        AccountId::from_str(text.as_str())
    }
}

/// What makes a text usable as the first part of a subaccount identifier:
/// it is not empty, and it obeys the character and separator rules.
pub open spec fn valid_account_prefix(s: Seq<char>) -> bool {
    &&& s.len() >= 1
    &&& forall|i: int| 0 <= i < s.len() ==> is_name_char(#[trigger] s[i]) || is_separator(s[i])
    &&& !is_separator(s[0])
    &&& !is_separator(s[s.len() - 1])
    &&& forall|i: int|
        0 <= i < s.len() - 1 ==> !(is_separator(#[trigger] s[i]) && is_separator(s[i + 1]))
}

/// A well-formed prefix joined to a valid parent gives a valid identifier
/// whenever the result is short enough, and the result is never top-level.
pub proof fn lemma_subaccount_valid(name: Seq<char>, parent: Seq<char>)
    requires
        valid_account_prefix(name),
        valid_account_id(parent),
        name.len() + 1 + parent.len() <= MAX_ACCOUNT_ID_LEN,
    ensures
        valid_account_id(subaccount_name(name, parent)),
        !is_top_level_name(subaccount_name(name, parent)),
{
    let s = subaccount_name(name, parent);
    let k = name.len() as int;
    assert(s.len() == k + 1 + parent.len());
    assert forall|i: int| 0 <= i < s.len() implies is_name_char(#[trigger] s[i]) || is_separator(
        s[i],
    ) by {
        if i < k {
            assert(s[i] == name[i]);
        } else if i == k {
            assert(s[i] == '.');
        } else {
            assert(s[i] == parent[i - k - 1]);
        }
    }
    assert(s[0] == name[0]);
    assert(s[s.len() - 1] == parent[parent.len() - 1]);
    assert forall|i: int| 0 <= i < s.len() - 1 implies !(is_separator(#[trigger] s[i])
        && is_separator(s[i + 1])) by {
        if i + 1 < k {
            assert(s[i] == name[i] && s[i + 1] == name[i + 1]);
        } else if i + 1 == k {
            assert(s[i] == name[k - 1]);
        } else if i == k {
            assert(s[i + 1] == parent[0]);
        } else {
            assert(s[i] == parent[i - k - 1] && s[i + 1] == parent[i - k - 1 + 1]);
        }
    }
    assert(s[k] == '.');
}

impl Clone for AccountId {
    fn clone(&self) -> (copy: AccountId)
        ensures
            copy@ == self@,
    {
        proof {
            use_type_invariant(self);
        }
        AccountId { name: self.name.clone() }
    }
}

/// The public half of a key pair, as the bytes the network knows it by.
#[derive(Debug, PartialEq, Eq)]
pub struct PublicKey {
    pub data: Vec<u8>,
}

impl View for PublicKey {
    type V = Seq<u8>;

    open spec fn view(&self) -> Seq<u8> {
        self.data@
    }
}

impl Clone for PublicKey {
    fn clone(&self) -> (copy: PublicKey)
        ensures
            copy@ == self@,
    {
        PublicKey { data: copy_bytes(&self.data) }
    }
}

/// A fresh vector holding the same bytes.
pub fn copy_bytes(bytes: &Vec<u8>) -> (copy: Vec<u8>)
    ensures
        copy@ == bytes@,
{
    let mut copy: Vec<u8> = Vec::new();
    let mut i: usize = 0;
    while i < bytes.len()
        invariant
            i <= bytes.len(),
            copy@ == bytes@.subrange(0, i as int),
        decreases bytes.len() - i,
    {
        copy.push(bytes[i]);
        assert(copy@ =~= bytes@.subrange(0, i + 1));
        i = i + 1;
    }
    assert(bytes@.subrange(0, bytes.len() as int) =~= bytes@);
    copy
}

/// A key pair. The private half never leaves the value except through
/// `secret_bytes`, which exists for the code that signs and stores keys.
#[derive(Debug, PartialEq, Eq)]
pub struct SecretKey {
    secret: Vec<u8>,
    public: Vec<u8>,
}

impl SecretKey {
    /// The bytes of the private half.
    pub closed spec fn secret_view(&self) -> Seq<u8> {
        self.secret@
    }

    /// The bytes of the public half.
    pub closed spec fn public_view(&self) -> Seq<u8> {
        self.public@
    }

    /// A key pair from its two halves.
    pub fn from_parts(secret: Vec<u8>, public: Vec<u8>) -> (key: SecretKey)
        ensures
            key.secret_view() == secret@,
            key.public_view() == public@,
    {
        SecretKey { secret, public }
    }

    /// The public key that corresponds to this key.
    pub fn public_key(&self) -> (key: PublicKey)
        ensures
            key@ == self.public_view(),
    {
        PublicKey { data: copy_bytes(&self.public) }
    }

    /// The private half, for signing and for the credential store.
    pub fn secret_bytes(&self) -> (bytes: &Vec<u8>)
        ensures
            bytes@ == self.secret_view(),
    {
        &self.secret
    }
}

impl Clone for SecretKey {
    fn clone(&self) -> (copy: SecretKey)
        ensures
            copy.secret_view() == self.secret_view(),
            copy.public_view() == self.public_view(),
    {
        SecretKey { secret: copy_bytes(&self.secret), public: copy_bytes(&self.public) }
    }
}

/// The identity that signs transactions: an account and a key that is
/// meant to be authorized for it on chain.
#[derive(Debug, PartialEq, Eq)]
pub struct InMemorySigner {
    pub account_id: AccountId,
    pub secret_key: SecretKey,
}

impl InMemorySigner {
    /// A signer for `account_id` that signs with `secret_key`.
    pub fn from_secret_key(account_id: AccountId, secret_key: SecretKey) -> (signer:
        InMemorySigner)
        ensures
            signer.account_id == account_id,
            signer.secret_key == secret_key,
    {
        InMemorySigner { account_id, secret_key }
    }

    /// The public key under which the signer's signatures verify.
    pub fn public_key(&self) -> (key: PublicKey)
        ensures
            key@ == self.secret_key.public_view(),
    {
        self.secret_key.public_key()
    }
}

impl Clone for InMemorySigner {
    fn clone(&self) -> (copy: InMemorySigner)
        ensures
            copy.account_id@ == self.account_id@,
            copy.secret_key.secret_view() == self.secret_key.secret_view(),
            copy.secret_key.public_view() == self.secret_key.public_view(),
    {
        InMemorySigner { account_id: self.account_id.clone(), secret_key: self.secret_key.clone() }
    }
}

} // verus!

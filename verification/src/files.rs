//! Where uploads are kept, and under what names.

use vstd::prelude::*;
use vstd::string::StringExecFns;

verus! {

/// The characters that no stored name holds.
pub open spec fn is_illegal(c: char) -> bool {
    c == '/' || c == '?' || c == '<' || c == '>' || c == '\\' || c == ':' || c == '*' || c == '|'
        || c == '"'
}

/// Whether `text` is free of such characters.
pub open spec fn is_clean(text: Seq<char>) -> bool {
    forall|i: int| 0 <= i < text.len() ==> !is_illegal(#[trigger] text[i])
}

/// Whether `part` is `whole` with some of its characters taken out, the
/// others in their order.
pub open spec fn is_taken_from(part: Seq<char>, whole: Seq<char>) -> bool
    decreases whole.len(),
{
    if part.len() == 0 {
        true
    } else if whole.len() == 0 {
        false
    } else if part.last() == whole.last() {
        is_taken_from(part.drop_last(), whole.drop_last())
    } else {
        is_taken_from(part, whole.drop_last())
    }
}

/// The decimal digit for `d`.
pub open spec fn digit(d: nat) -> char
    recommends
        d < 10,
{
    ('0' as u8 + d) as u8 as char
}

/// `n` in decimal, without leading zeros.
pub open spec fn decimal(n: nat) -> Seq<char>
    decreases n,
{
    if n < 10 {
        seq![digit(n)]
    } else {
        decimal(n / 10).push(digit(n % 10))
    }
}

/// A number in decimal is free of illegal characters.
pub proof fn lemma_decimal_is_clean(n: nat)
    ensures
        is_clean(decimal(n)),
    decreases n,
{
    if n >= 10 {
        lemma_decimal_is_clean(n / 10);
    }
}

/// `u128::to_string`: the number in decimal.
#[verifier::external_body]
fn in_decimal(n: u128) -> (text: String)
    ensures
        text@ == decimal(n as nat),
{
    n.to_string()
}

/// `sanitize_filename::sanitize`: the name without the characters that a
/// file name may not hold, cut to at most 255 bytes. It only takes
/// characters out. What else it takes out depends on the platform, so no
/// more is claimed than that those are gone, that what is left is of the
/// name and in its order, and that it is no longer than that.
#[verifier::external_body]
fn sanitize(file_name: &str) -> (clean: String)
    ensures
        is_clean(clean@),
        is_taken_from(clean@, file_name@),
        clean@.len() <= 255,
{
    sanitize_filename::sanitize(file_name)
}

/// The folder in which uploads are kept.
#[derive(Debug, Clone, PartialEq, Eq)]
pub struct LocalFileHandler {
    storage_folder: String,
}

impl LocalFileHandler {
    pub closed spec fn folder(&self) -> Seq<char> {
        self.storage_folder@
    }

    pub fn new(storage_folder: String) -> (handler: Self)
        ensures
            handler.folder() == storage_folder@,
    {
        LocalFileHandler { storage_folder }
    }

    pub fn storage_folder(&self) -> (folder: &str)
        ensures
            folder@ == self.folder(),
    {
        self.storage_folder.as_str()
    }

    /// The name for a file stored at `millis` whose name, cleaned, is
    /// `clean`: the time in decimal, a hyphen, the cleaned name.
    pub fn stamped(millis: u128, clean: &str) -> (name: String)
        ensures
            name@ == decimal(millis as nat) + seq!['-'] + clean@,
    {
        let mut name = in_decimal(millis);
        proof {
            reveal_strlit("-");
            assert("-"@ =~= seq!['-']);
        }
        name.append("-");
        name.append(clean);
        name
    }

    /// The name under which a file called `file_name` by its sender is
    /// stored at `millis`, in milliseconds since the epoch: the time, a
    /// hyphen, and what is left of the sender's name once the characters that
    /// a file name may not hold are taken out, at most 255 of them. Whatever
    /// the sender called it, the name holds no path separator: the file
    /// lands in the storage folder itself.
    pub fn store_file(&self, millis: u128, file_name: &str) -> (name: String)
        ensures
            exists|clean: Seq<char>|
                is_clean(clean) && is_taken_from(clean, file_name@) && clean.len() <= 255 && name@
                    == decimal(millis as nat) + seq!['-'] + clean,
            is_clean(name@),
    {
        let clean = sanitize(file_name);
        let name = Self::stamped(millis, clean.as_str());
        proof {
            lemma_decimal_is_clean(millis as nat);
            assert(is_clean(clean@) && is_taken_from(clean@, file_name@) && clean@.len() <= 255
                && name@ == decimal(millis as nat) + seq!['-'] + clean@);
        }
        name
    }
}

} // verus!

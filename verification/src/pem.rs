//! Choosing the private key among the blocks of a key file.

use crate::error::StringError;
use crate::text::concat3;
use vstd::prelude::*;

verus! {

/// One block of a PEM file, by its kind, or the failure to read one.
#[derive(Debug)]
pub enum PemEntry {
    /// An RSA private key.
    RsaKey,
    /// A PKCS#8 private key.
    Pkcs8Key,
    /// A SEC1 elliptic-curve private key.
    EcKey,
    /// A block that is no private key.
    Other,
    /// The file could not be read further; the text says why.
    Unreadable(String),
}

impl PemEntry {
    /// Whether the block is a private key.
    pub open spec fn is_key(&self) -> bool {
        self is RsaKey || self is Pkcs8Key || self is EcKey
    }

    /// Whether reading stops at this block: a key is taken, a failure ends
    /// the reading.
    pub open spec fn is_decisive(&self) -> bool {
        self.is_key() || self is Unreadable
    }
}

/// The first block at or after `from` at which reading stops.
pub open spec fn first_decisive(entries: Seq<PemEntry>, from: int) -> Option<int>
    decreases entries.len() - from,
{
    if from < 0 || from >= entries.len() {
        None
    } else if entries[from].is_decisive() {
        Some(from)
    } else {
        first_decisive(entries, from + 1)
    }
}

/// The message for a key file without a key.
pub open spec fn missing_key_message(filename: Seq<char>) -> Seq<char> {
    "Expected key to exists in key file "@ + filename
}

/// The message for a key file that could not be read.
pub open spec fn unreadable_key_message(filename: Seq<char>, reason: Seq<char>) -> Seq<char> {
    "Failed to read key file "@ + filename + ": "@ + reason
}

/// The key of a key file: the index of its first key block, the blocks
/// before it being skipped; or the message that says why there is none.
pub open spec fn key_choice(filename: Seq<char>, entries: Seq<PemEntry>) -> Result<int, Seq<char>> {
    match first_decisive(entries, 0) {
        Some(index) => match entries[index] {
            PemEntry::Unreadable(reason) => Err(unreadable_key_message(filename, reason@)),
            _ => Ok(index),
        },
        None => Err(missing_key_message(filename)),
    }
}

/// The block that `first_decisive` names is decisive and the first such.
pub proof fn lemma_first_decisive(entries: Seq<PemEntry>, from: int)
    requires
        0 <= from,
    ensures
        match first_decisive(entries, from) {
            Some(index) => from <= index < entries.len() && entries[index].is_decisive()
                && forall|j: int| from <= j < index ==> !(#[trigger] entries[j]).is_decisive(),
            None => forall|j: int|
                from <= j < entries.len() ==> !(#[trigger] entries[j]).is_decisive(),
        },
    decreases entries.len() - from,
{
    if from < entries.len() && !entries[from].is_decisive() {
        lemma_first_decisive(entries, from + 1);
    }
}

/// Picks the private key among the blocks read from the key file
/// `filename`, in the order in which they stand there.
pub fn load_key(filename: &str, entries: &Vec<PemEntry>) -> (key: Result<usize, StringError>)
    ensures
        match key_choice(filename@, entries@) {
            Ok(index) => key.is_ok() && key.unwrap() == index,
            Err(message) => key.is_err() && key.unwrap_err()@ == message,
        },
        key.is_ok() ==> key.unwrap() < entries.len() && entries[key.unwrap() as int].is_key(),
{
    proof {
        reveal_strlit("");
        lemma_first_decisive(entries@, 0);
    }
    let mut index: usize = 0;
    while index < entries.len()
        invariant
            index <= entries.len(),
            first_decisive(entries@, 0) == first_decisive(entries@, index as int),
        decreases entries.len() - index,
    {
        match &entries[index] {
            PemEntry::RsaKey | PemEntry::Pkcs8Key | PemEntry::EcKey => {
                return Ok(index);
            },
            PemEntry::Unreadable(reason) => {
                let head = concat3("Failed to read key file ", filename, ": ");
                let message = concat3(head.as_str(), reason.as_str(), "");
                proof {
                    reveal_strlit("");
                }
                assert(message@ =~= unreadable_key_message(filename@, reason@));
                return Err(StringError::new(message));
            },
            PemEntry::Other => {},
        }
        index += 1;
    }
    let message = concat3("Expected key to exists in key file ", filename, "");
    assert(message@ =~= missing_key_message(filename@));
    Err(StringError::new(message))
}

} // verus!

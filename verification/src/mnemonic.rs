//! BIP-39 seed phrases: making a fresh one, and deriving from one the seed that
//! the node is opened with. The word lists, the checksum and the key stretching
//! are the work of the `bip39` crate.

use vstd::prelude::*;
use vstd::pervasive::unreached;
use crate::error::CommandError;

verus! {

/// `bip39::Error`, the reason why `bip39` made no mnemonic. Nothing is known of
/// what is inside one.
#[verifier::external_type_specification]
#[verifier::external_body]
pub struct ExMnemonicError(bip39::Error);

/// Whether `bip39` reads `phrase` as a mnemonic: its words are 12, 15, 18, 21 or
/// 24 words of the English list, and their checksum holds.
pub uninterp spec fn is_mnemonic(phrase: Seq<char>) -> bool;

/// The seed that `bip39` stretches out of the mnemonic `phrase` and a
/// passphrase.
pub uninterp spec fn seed_of(phrase: Seq<char>, passphrase: Seq<char>) -> Seq<u8>;

/// The numbers of words that a mnemonic can have.
pub open spec fn is_word_count(words: usize) -> bool {
    12 <= words <= 24 && words % 3 == 0
}

/// The number of words in a phrase whose words are parted by single spaces.
pub open spec fn words_in(phrase: Seq<char>) -> nat {
    phrase.to_multiset().count(' ') + 1
}

/// The number of words of a fresh mnemonic.
pub const FRESH_WORDS: usize = 12;

/// The length of a seed, in bytes.
pub const SEED_BYTES: usize = 64;

/// `bip39::Mnemonic::from_str`, and `bip39::Mnemonic::to_seed` on what it read.
/// Trusted: whether a phrase is read as a mnemonic depends on the phrase alone,
/// and `is_mnemonic` is the name of that; the seed of a mnemonic depends on the
/// phrase and the passphrase alone, `seed_of` is the name of that, and it is an
/// array of 64 bytes.
#[verifier::external_body]
fn stretch(phrase: &str, passphrase: &str) -> (r: Result<Vec<u8>, bip39::Error>)
    ensures
        r is Ok <==> is_mnemonic(phrase@),
        r matches Ok(seed) ==> seed@ == seed_of(phrase@, passphrase@) && seed@.len()
            == SEED_BYTES,
{
    match phrase.parse::<bip39::Mnemonic>() {
        Ok(mnemonic) => Ok(mnemonic.to_seed(passphrase).to_vec()),
        Err(e) => Err(e),
    }
}

/// `bip39::Mnemonic::generate_in` for the English list, the mnemonic written out
/// with single spaces between its words. Trusted: it fails exactly on a number
/// of words that no mnemonic can have; what it makes has that number of words
/// and is read back as a mnemonic.
#[verifier::external_body]
fn fresh_phrase(words: usize) -> (r: Result<String, bip39::Error>)
    ensures
        r is Ok <==> is_word_count(words),
        r matches Ok(phrase) ==> is_mnemonic(phrase@) && words_in(phrase@) == words,
{
    match bip39::Mnemonic::generate_in(bip39::Language::English, words) {
        Ok(mnemonic) => Ok(mnemonic.to_string()),
        Err(e) => Err(e),
    }
}

/// A fresh English mnemonic of twelve words, from the randomness of the
/// operating system.
pub fn generate_mnemonic() -> (r: String)
    ensures
        is_mnemonic(r@),
        words_in(r@) == FRESH_WORDS,
{
    match fresh_phrase(FRESH_WORDS) {
        Ok(phrase) => phrase,
        Err(_) => {
            proof {
                assert(false);
            }
            unreached()
        },
    }
}

/// The seed of the phrase, stretched with an empty passphrase: the 64 bytes
/// that BIP-39 gives where the phrase is a mnemonic, and `InvalidMnemonic` where
/// it is not.
pub fn derive_seed(phrase: &str) -> (r: Result<Vec<u8>, CommandError>)
    ensures
        is_mnemonic(phrase@) ==> r is Ok && r->Ok_0@ == seed_of(phrase@, ""@) && r->Ok_0@.len()
            == SEED_BYTES,
        !is_mnemonic(phrase@) ==> r == Err::<Vec<u8>, CommandError>(
            CommandError::InvalidMnemonic,
        ),
{
    match stretch(phrase, "") {
        Ok(seed) => Ok(seed),
        Err(_) => Err(CommandError::InvalidMnemonic),
    }
}

} // verus!

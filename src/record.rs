use vstd::prelude::*;
use vstd::string::StringExecFns;

use crate::quote::Quote;

verus! {

/// Why a quote could not be appended to its log.
#[derive(Debug, Clone, PartialEq, Eq)]
pub enum RecordError {
    /// The log could not be opened or written (permissions, full disk, bad path).
    IoFailure(String),
}

/// What a log holds after the given entries: their texts back to back, with
/// no separator, oldest first.
pub open spec fn log_text(entries: Seq<Seq<char>>) -> Seq<char>
    decreases entries.len(),
{
    if entries.len() == 0 {
        Seq::empty()
    } else {
        log_text(entries.drop_last()) + entries.last()
    }
}

/// Records `quote` on a log held as text: the price is appended as it is,
/// with no separator, and what was there stays.
pub fn record(log: &mut String, quote: &Quote)
    ensures
        final(log)@ == old(log)@ + quote.price@,
{
    log.append(quote.price.as_str());
}

/// Recording the entries of a log one after the other leaves exactly their
/// concatenation: appending one more entry extends the text by that entry and
/// nothing else.
pub proof fn lemma_record_appends(entries: Seq<Seq<char>>, next: Seq<char>)
    ensures
        log_text(entries.push(next)) == log_text(entries) + next,
{
    assert(entries.push(next).drop_last() =~= entries);
}

} // verus!

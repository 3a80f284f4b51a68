//! Text written through a formatter.

use vstd::prelude::*;

verus! {

/// `std::fmt::Formatter`, the sink that `Debug` writes to. Nothing inside it
/// is visible here.
#[verifier::external_type_specification]
#[verifier::external_body]
pub struct ExFormatter<'a>(std::fmt::Formatter<'a>);

/// `std::fmt::Error`, which says that the sink refused a write and nothing
/// more.
#[verifier::external_type_specification]
#[verifier::external_body]
pub struct ExFmtError(std::fmt::Error);

/// The text that has gone through `f` to the sink behind it, in the order in
/// which it was written.
pub uninterp spec fn written(f: std::fmt::Formatter<'_>) -> Seq<char>;

/// Calls `std::fmt::Formatter::write_str`, which hands `text` to the sink
/// and succeeds only if the sink took all of it. The contract is believed,
/// not proved: after a success the formatter has written `text` behind what
/// it had written before. After a failure nothing is known of it.
#[verifier::external_body]
pub(crate) fn write_text(f: &mut std::fmt::Formatter<'_>, text: &str) -> (done: Result<(), std::fmt::Error>)
    ensures
        done is Ok ==> written(*final(f)) == written(*old(f)) + text@,
{
    f.write_str(text)
}

} // verus!

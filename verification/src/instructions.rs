//! The program's instructions. There is one, `initialize`.

use crate::context::{Context, Initialize};
use crate::program_id::{debug_text, format_address};
use vstd::prelude::*;

verus! {

/// The outcome an instruction handler reports when it fails. `initialize`
/// never makes one; the type is carried so that the handler's result is the
/// one the framework expects.
#[verifier::external_type_specification]
#[verifier::external_body]
pub struct ExError(anchor_lang::error::Error);

/// What every greeting starts with.
pub const GREETING_PREFIX: &'static str = "Greetings from: ";

/// The log line that greets from the program whose address prints as
/// `id_text`.
pub open spec fn greeting(id_text: Seq<char>) -> Seq<char> {
    GREETING_PREFIX@ + id_text
}

/// Whether `part` occurs in `line` as one unbroken run of characters.
pub open spec fn occurs_in(part: Seq<char>, line: Seq<char>) -> bool {
    exists|at: int|
        0 <= at && at + part.len() <= line.len() && #[trigger] line.subrange(
            at,
            at + part.len(),
        ) == part
}

/// Builds the greeting for a program whose address prints as `id_text`.
pub fn greeting_line(id_text: &str) -> (line: String)
    ensures
        line@ == greeting(id_text@),
{
    String::from_str(GREETING_PREFIX).concat(id_text)
}

/// Handles the `initialize` instruction: appends one greeting, made for the
/// program the context names, to `log`, and succeeds. It does so on every
/// context and changes nothing else. The line it appends is the prefix
/// followed by the text of the program's address, so the address can be read
/// off the log.
pub fn initialize(ctx: Context<Initialize>, log: &mut Vec<String>) -> (result: Result<
    (),
    anchor_lang::error::Error,
>)
    ensures
        result is Ok,
        final(log)@.len() == old(log)@.len() + 1,
        final(log)@.drop_last() == old(log)@,
        final(log)@.last()@ == greeting(debug_text(ctx.program_id@)),
        occurs_in(debug_text(ctx.program_id@), final(log)@.last()@),
{
    let id_text = format_address(&ctx.program_id);
    let line = greeting_line(id_text.as_str());
    proof {
        greeting_contains_address(id_text@);
    }
    log.push(line);
    assert(log@.drop_last() =~= old(log)@);
    Ok(())
}

/// A greeting is its prefix followed by the text of the address, whole and
/// unchanged: whoever reads a greeting finds in it the address it was made
/// for.
pub proof fn greeting_contains_address(id_text: Seq<char>)
    ensures
        greeting(id_text).len() == GREETING_PREFIX@.len() + id_text.len(),
        greeting(id_text).take(GREETING_PREFIX@.len() as int) == GREETING_PREFIX@,
        greeting(id_text).skip(GREETING_PREFIX@.len() as int) == id_text,
        occurs_in(id_text, greeting(id_text)),
{
    let prefix = GREETING_PREFIX@;
    let line = greeting(id_text);
    assert(line.take(prefix.len() as int) =~= prefix);
    assert(line.skip(prefix.len() as int) =~= id_text);
    let at = prefix.len() as int;
    assert(line.subrange(at, at + id_text.len()) =~= id_text);
}

} // verus!

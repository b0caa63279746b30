//! Reading the system clipboard.
use vstd::prelude::*;

verus! {

/// Whether `set_text` writes a clip once the clipboard service was asked for: without a
/// clipboard manager nothing is written, and the call still succeeds.
pub fn clip_write_needed(manager_present: bool) -> (r: bool)
    ensures
        r == manager_present,
{
    manager_present
}

/// What is asked of the Java side next when reading the clipboard. Each question is
/// answered by whether the object exists (for `HasPrimaryClip`: by the method's result).
#[derive(Debug, Clone, Copy, PartialEq, Eq, Structural)]
pub enum ClipQuery {
    /// `getSystemService("clipboard")`
    ClipboardService,
    /// `ClipboardManager.hasPrimaryClip()`
    HasPrimaryClip,
    /// `ClipboardManager.getPrimaryClip()`
    PrimaryClip,
    /// `ClipData.getItemAt(0)`
    FirstItem,
    /// `ClipData.Item.getText()`
    ItemText,
    /// `CharSequence.toString()`
    TextString,
}

/// The next step of reading the clipboard.
#[derive(Debug, Clone, Copy, PartialEq, Eq, Structural)]
pub enum ClipStep {
    Ask(ClipQuery),
    /// There is no text: the result is `None`.
    NoText,
    /// The text string exists: its contents are the result.
    ReadText,
}

/// The step after `q` was answered with `answer`.
pub open spec fn spec_clip_read_next(q: ClipQuery, answer: bool) -> ClipStep {
    if !answer {
        ClipStep::NoText
    } else {
        match q {
            ClipQuery::ClipboardService => ClipStep::Ask(ClipQuery::HasPrimaryClip),
            ClipQuery::HasPrimaryClip => ClipStep::Ask(ClipQuery::PrimaryClip),
            ClipQuery::PrimaryClip => ClipStep::Ask(ClipQuery::FirstItem),
            ClipQuery::FirstItem => ClipStep::Ask(ClipQuery::ItemText),
            ClipQuery::ItemText => ClipStep::Ask(ClipQuery::TextString),
            ClipQuery::TextString => ClipStep::ReadText,
        }
    }
}

/// The first question.
pub fn clip_read_start() -> (r: ClipStep)
    ensures
        r == ClipStep::Ask(ClipQuery::ClipboardService),
{
    ClipStep::Ask(ClipQuery::ClipboardService)
}

/// The step after `q` was answered with `answer`: any missing link (no service, no
/// primary clip, no item, no text) means there is no text.
pub fn clip_read_next(q: ClipQuery, answer: bool) -> (r: ClipStep)
    ensures
        r == spec_clip_read_next(q, answer),
{
    if !answer {
        ClipStep::NoText
    } else {
        match q {
            ClipQuery::ClipboardService => ClipStep::Ask(ClipQuery::HasPrimaryClip),
            ClipQuery::HasPrimaryClip => ClipStep::Ask(ClipQuery::PrimaryClip),
            ClipQuery::PrimaryClip => ClipStep::Ask(ClipQuery::FirstItem),
            ClipQuery::FirstItem => ClipStep::Ask(ClipQuery::ItemText),
            ClipQuery::ItemText => ClipStep::Ask(ClipQuery::TextString),
            ClipQuery::TextString => ClipStep::ReadText,
        }
    }
}

/// Where `n` more steps lead from `s` when question `q` is answered `answers(q)`.
pub open spec fn clip_run(answers: spec_fn(ClipQuery) -> bool, s: ClipStep, n: nat) -> ClipStep
    decreases n,
{
    if n == 0 {
        s
    } else {
        match s {
            ClipStep::Ask(q) => clip_run(answers, spec_clip_read_next(q, answers(q)), (n - 1) as nat),
            _ => s,
        }
    }
}

/// Reading from the start, six questions decide; the text is read exactly when every
/// link exists (service, a primary clip, its first item, the item's text, its string).
pub proof fn lemma_clip_read_run(answers: spec_fn(ClipQuery) -> bool)
    ensures
        clip_run(answers, ClipStep::Ask(ClipQuery::ClipboardService), 6) == (if answers(ClipQuery::ClipboardService)
            && answers(ClipQuery::HasPrimaryClip) && answers(ClipQuery::PrimaryClip) && answers(ClipQuery::FirstItem)
            && answers(ClipQuery::ItemText) && answers(ClipQuery::TextString) {
            ClipStep::ReadText
        } else {
            ClipStep::NoText
        }),
{
    reveal_with_fuel(clip_run, 7);
}

} // verus!

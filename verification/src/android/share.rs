//! The system share sheet.
use vstd::prelude::*;

verus! {

/// `Intent.ACTION_SEND`.
pub const ACTION_SEND: &'static str = "android.intent.action.SEND";
/// The MIME type of shared text.
pub const MIME_TEXT: &'static str = "text/plain";
/// `Intent.EXTRA_SUBJECT`.
pub const EXTRA_SUBJECT: &'static str = "android.intent.extra.SUBJECT";
/// `Intent.EXTRA_TEXT`.
pub const EXTRA_TEXT: &'static str = "android.intent.extra.TEXT";

/// One string extra put on the share intent.
pub struct ShareExtra {
    pub key: &'static str,
    pub value: String,
}

/// The extras of a text share, in the order they are put: the subject when there is one,
/// then the text.
pub fn share_extras(subject: Option<&str>, body: &str) -> (r: Vec<ShareExtra>)
    ensures
        subject is None ==> r@.len() == 1 && r@[0].key == EXTRA_TEXT && r@[0].value@ == body@,
        subject matches Some(s) ==> r@.len() == 2 && r@[0].key == EXTRA_SUBJECT && r@[0].value@ == s@
            && r@[1].key == EXTRA_TEXT && r@[1].value@ == body@,
{
    let mut r: Vec<ShareExtra> = Vec::new();
    if let Some(s) = subject {
        r.push(ShareExtra { key: EXTRA_SUBJECT, value: String::from_str(s) });
    }
    r.push(ShareExtra { key: EXTRA_TEXT, value: String::from_str(body) });
    r
}

} // verus!

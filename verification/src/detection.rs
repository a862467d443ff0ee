//! What the monitor learns about Clip Studio Paint on each sample, and the
//! timestamps it derives for the presence.

use vstd::prelude::*;

verus! {

/// One observation of Clip Studio Paint.
#[derive(Debug)]
pub struct ClipStudioDetection {
    pub running: bool,
    pub focused: bool,
    pub document_title: Option<String>,
}

/// Clones an optional string, keeping its value.
pub fn clone_opt_string(s: &Option<String>) -> (res: Option<String>)
    ensures
        res == *s,
{
    match s {
        Some(v) => Some(v.clone()),
        None => None,
    }
}

impl ClipStudioDetection {
    /// Nothing running, nothing focused, no title.
    pub fn not_running() -> (res: Self)
        ensures
            !res.running,
            !res.focused,
            res.document_title is None,
    {
        ClipStudioDetection { running: false, focused: false, document_title: None }
    }
}

impl Clone for ClipStudioDetection {
    fn clone(&self) -> (res: Self)
        ensures
            res == *self,
    {
        ClipStudioDetection {
            running: self.running,
            focused: self.focused,
            document_title: clone_opt_string(&self.document_title),
        }
    }
}

impl Default for ClipStudioDetection {
    fn default() -> (res: Self)
        ensures
            !res.running,
            !res.focused,
            res.document_title is None,
    {
        ClipStudioDetection::not_running()
    }
}

/// Timestamps shown with the presence: when the current drawing stretch
/// began, or since when the user has been away from the canvas.
#[derive(Clone, Copy, Debug, PartialEq, Eq, Structural)]
pub struct PresenceTiming {
    pub drawing_started_at: Option<i64>,
    pub procrastinating_since: Option<i64>,
}

impl PresenceTiming {
    /// No timestamp at all.
    pub fn none() -> (res: Self)
        ensures
            res.drawing_started_at is None,
            res.procrastinating_since is None,
    {
        PresenceTiming { drawing_started_at: None, procrastinating_since: None }
    }
}

impl Default for PresenceTiming {
    fn default() -> (res: Self)
        ensures
            res.drawing_started_at is None,
            res.procrastinating_since is None,
    {
        PresenceTiming::none()
    }
}

} // verus!

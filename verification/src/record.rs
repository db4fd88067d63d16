//! Process records and the service-manager heuristic.

use vstd::prelude::*;

verus! {

/// One entry of a system-wide process enumeration, reduced to the fields the
/// detection heuristic reads.
#[derive(Clone, Debug)]
pub struct ProcessRecord {
    /// Identifier of the process within the process table.
    pub pid: u64,
    /// Identifier of the session the process runs in; session 0 is reserved
    /// for system and service processes.
    pub session_id: u32,
    /// Image file name of the process, or the `"<null>"` placeholder where
    /// the enumeration carries none.
    pub image_name: String,
}

/// Mathematical form of a [`ProcessRecord`].
pub struct SpecProcessRecord {
    /// Identifier of the process.
    pub pid: u64,
    /// Identifier of the session the process runs in.
    pub session_id: u32,
    /// Image file name as a character sequence.
    pub image_name: Seq<char>,
}

impl View for ProcessRecord {
    type V = SpecProcessRecord;

    open spec fn view(&self) -> SpecProcessRecord {
        SpecProcessRecord { pid: self.pid, session_id: self.session_id, image_name: self.image_name@ }
    }
}

/// The view of an optional record, absent records staying absent.
pub open spec fn record_option_view(rec: Option<ProcessRecord>) -> Option<SpecProcessRecord> {
    match rec {
        Option::None => Option::None,
        Option::Some(r) => Option::Some(r@),
    }
}

/// Image file name of the service control manager.
pub open spec fn service_manager_image() -> Seq<char> {
    "services.exe"@
}

/// The heuristic decision: a parent is the service control manager exactly
/// when it was found, runs in session 0, and its image name is
/// `services.exe`, case-sensitively.
pub open spec fn spec_classify(rec: Option<SpecProcessRecord>) -> bool {
    match rec {
        Option::None => false,
        Option::Some(r) => r.session_id == 0 && r.image_name == service_manager_image(),
    }
}

/// Decide whether the given parent record belongs to the service control
/// manager. Total: an absent record classifies as `false`.
pub fn classify(rec: &Option<ProcessRecord>) -> (b: bool)
    ensures
        b == spec_classify(record_option_view(*rec)),
{
    match rec {
        Option::None => false,
        Option::Some(r) => {
            let target: String = "services.exe".to_owned();
            r.session_id == 0 && r.image_name == target
        },
    }
}

/// An absent parent record never classifies as a service launch.
pub proof fn lemma_classify_absent()
    ensures
        !spec_classify(Option::<SpecProcessRecord>::None),
{
}

/// The heuristic holds exactly when the session identifier is 0 and the
/// image name equals `services.exe`; a deviation in either field decides
/// against it.
pub proof fn lemma_classify_exact(rec: SpecProcessRecord)
    ensures
        spec_classify(Option::Some(rec)) <==> (rec.session_id == 0 && rec.image_name
            == service_manager_image()),
{
}

} // verus!

//! The rights ledger: append-only, and closed to any entry that would
//! permit a reversal.

use vstd::prelude::*;
use vstd::string::*;
use crate::platform::{fresh_uuid_text, is_v4_text};

verus! {

/// Why an operation on rights, capabilities or the ledger failed.
#[derive(Debug)]
pub enum MorpheusError {
    RightsViolation(String),
    CapabilityViolation(String),
    ReversalForbidden(String),
    ParseError(String),
    LedgerError(String),
}

impl MorpheusError {
    /// The text of the error: what kind it is, then its detail.
    pub open spec fn text(&self) -> Seq<char> {
        match self {
            MorpheusError::RightsViolation(m) => "rights violation: "@ + m@,
            MorpheusError::CapabilityViolation(m) => "capability violation: "@ + m@,
            MorpheusError::ReversalForbidden(m) => "reversal forbidden: "@ + m@,
            MorpheusError::ParseError(m) => "parsing error: "@ + m@,
            MorpheusError::LedgerError(m) => "ledger error: "@ + m@,
        }
    }

    /// Renders the error as text.
    pub fn message(&self) -> (s: String)
        ensures
            s@ == self.text(),
    {
        match self {
            MorpheusError::RightsViolation(m) => String::from_str("rights violation: ").concat(
                m.as_str(),
            ),
            MorpheusError::CapabilityViolation(m) => String::from_str(
                "capability violation: ",
            ).concat(m.as_str()),
            MorpheusError::ReversalForbidden(m) => String::from_str("reversal forbidden: ").concat(
                m.as_str(),
            ),
            MorpheusError::ParseError(m) => String::from_str("parsing error: ").concat(m.as_str()),
            MorpheusError::LedgerError(m) => String::from_str("ledger error: ").concat(m.as_str()),
        }
    }
}

/// The subject of an entry: a hyphenated UUID and a label.
#[derive(Clone, Debug, PartialEq, Eq, Hash)]
pub struct Identity {
    pub id: String,
    pub label: String,
}

/// The level of neurorights that an entry fixes.
#[derive(Clone, Copy, Debug)]
pub enum NeurorightsLevel {
    Tier1,
    Tier2,
    Tier3,
}

/// One entry of the rights ledger.
#[derive(Clone, Debug)]
pub struct RightsLedgerEntry {
    pub subject: Identity,
    pub immutable_neurorights_level: NeurorightsLevel,
    pub allow_neuromorph_reversal: bool,
    pub timestamp_utc: String,
    pub statement: String,
}

impl RightsLedgerEntry {
    /// The entry for a subject with a known identifier: first tier, and
    /// no reversal permitted.
    pub fn with_subject_id(
        id: String,
        subject_label: &str,
        statement: &str,
        timestamp_utc: String,
    ) -> (e: Self)
        ensures
            e.subject.id == id,
            e.subject.label@ == subject_label@,
            e.immutable_neurorights_level is Tier1,
            !e.allow_neuromorph_reversal,
            e.timestamp_utc == timestamp_utc,
            e.statement@ == statement@,
    {
        RightsLedgerEntry {
            subject: Identity { id, label: String::from_str(subject_label) },
            immutable_neurorights_level: NeurorightsLevel::Tier1,
            allow_neuromorph_reversal: false,
            timestamp_utc,
            statement: String::from_str(statement),
        }
    }

    /// The entry for a new subject, under a fresh random identifier:
    /// first tier, and no reversal permitted.
    pub fn monotone_default(subject_label: &str, statement: &str, timestamp_utc: String) -> (e:
        Self)
        ensures
            is_v4_text(e.subject.id@),
            e.subject.label@ == subject_label@,
            e.immutable_neurorights_level is Tier1,
            !e.allow_neuromorph_reversal,
            e.timestamp_utc == timestamp_utc,
            e.statement@ == statement@,
    {
        Self::with_subject_id(fresh_uuid_text(), subject_label, statement, timestamp_utc)
    }

    /// Whether the entry permits a reversal.
    pub fn is_reversal_allowed(&self) -> (r: bool)
        ensures
            r == self.allow_neuromorph_reversal,
    {
        self.allow_neuromorph_reversal
    }
}

/// The rights ledger, oldest entry first.
#[derive(Clone, Debug)]
pub struct RightsLedger {
    pub entries: Vec<RightsLedgerEntry>,
}

impl RightsLedger {
    /// The detail of the error that refuses an entry.
    pub open spec fn refusal_detail() -> Seq<char> {
        "allow_neuromorph_reversal must remain false in Tier-1 ledger"@
    }

    /// An empty ledger.
    pub fn new() -> (l: Self)
        ensures
            l.entries@ == Seq::<RightsLedgerEntry>::empty(),
    {
        RightsLedger { entries: Vec::new() }
    }

    /// Appends an entry, or refuses it. An entry that permits a reversal
    /// is refused and the ledger stays as it was; any other entry is
    /// appended after all earlier ones, which stay as they are.
    pub fn append(&mut self, entry: RightsLedgerEntry) -> (r: Result<(), MorpheusError>)
        ensures
            entry.allow_neuromorph_reversal ==> r is Err && final(self).entries@ == old(
                self,
            ).entries@ && (r->Err_0 matches MorpheusError::RightsViolation(m) && m@
                == Self::refusal_detail()),
            !entry.allow_neuromorph_reversal ==> r is Ok && final(self).entries@ == old(
                self,
            ).entries@.push(entry),
    {
        if entry.allow_neuromorph_reversal {
            return Err(
                MorpheusError::RightsViolation(
                    String::from_str("allow_neuromorph_reversal must remain false in Tier-1 ledger"),
                ),
            );
        }
        self.entries.push(entry);
        Ok(())
    }
}

impl Default for RightsLedger {
    fn default() -> (l: Self)
        ensures
            l.entries@ == Seq::<RightsLedgerEntry>::empty(),
    {
        RightsLedger::new()
    }
}

} // verus!

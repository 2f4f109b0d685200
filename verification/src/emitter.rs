//! The emitter: the write protocol, run on a document. An [`Emitter`] holds a
//! checked document and its string table and says, one request at a time,
//! what the output sink has to do. The caller performs the request and
//! reports how it went; the emitter decides what comes next.

use crate::error::GenerateError;
use crate::layout::{has_payloads, section_record, validate};
use crate::layout::{lemma_validation, validation};
use crate::models::Elf;
use crate::os::last_os_error;
use crate::protocol::{EmitterView, Phase, SinkReply, SinkRequest};
use crate::protocol::{consistent, initial, outcome_of, request_of, step, well_formed};
use crate::protocol::lemma_initial_consistent;
use crate::strtab::{build_string_table, table_fits};
use vstd::pervasive::unreached;
use vstd::prelude::*;

verus! {

/// Drives one generation.
pub struct Emitter {
    doc: Elf,
    table: Vec<u8>,
    phase: Phase,
}

/// Whether a document can be handed to [`Emitter::new`].
pub fn is_well_formed(doc: &Elf) -> (ok: bool)
    ensures
        ok == well_formed(doc@),
{
    table_fits(&doc.scns) && has_payloads(&doc.scns) && doc.has_consistent_index()
}

impl View for Emitter {
    type V = EmitterView;

    closed spec fn view(&self) -> EmitterView {
        EmitterView { doc: self.doc@, table: self.table@, phase: self.phase }
    }
}

impl Emitter {
    #[verifier::type_invariant]
    spec fn inv(&self) -> bool {
        consistent(self@)
    }

    /// Checks `doc`, builds its string table and records the name offsets.
    /// Nothing is asked of the sink before the document has passed the check.
    ///
    /// The document has to be well formed, which [`is_well_formed`] tests. A
    /// well-formed document with a section of a kind that has no bytes to
    /// emit is refused with the kind of the first such section.
    pub fn new(doc: Elf) -> (r: Result<Emitter, GenerateError>)
        requires
            well_formed(doc@),
        ensures
            match r {
                Ok(emitter) => validation(doc@.scns) is Ok && emitter@ == initial(doc@)
                    && consistent(emitter@),
                Err(e) => validation(doc@.scns) == Err::<(), GenerateError>(e),
            },
    {
        let mut doc = doc;
        let ghost before = doc@;
        assert(before.scns.len() == doc.scns.len());
        match validate(&doc) {
            Ok(()) => {},
            Err(e) => {
                return Err(e);
            },
        }
        let table = build_string_table(&mut doc.scns);
        proof {
            lemma_validation(before.scns);
            lemma_initial_consistent(before);
            assert(doc@ == initial(before).doc);
        }
        Ok(Emitter { doc, table, phase: Phase::Open })
    }

    /// The document, with the name offsets that the table pass assigned.
    pub fn document(&self) -> (doc: &Elf)
        ensures
            doc@ == self@.doc,
    {
        &self.doc
    }

    /// The string table of the document.
    pub fn string_table(&self) -> (table: &Vec<u8>)
        ensures
            table@ == self@.table,
    {
        &self.table
    }

    /// The request that the sink has to serve now; `None` once the generation
    /// is over. A section's bytes are a fresh copy with each call, and the
    /// size in its record is the number of those bytes.
    pub fn request(&self) -> (req: Option<SinkRequest>)
        ensures
            consistent(self@),
            match req {
                Some(request) => request_of(self@) == Some(request@),
                None => request_of(self@) is None,
            },
            req matches Some(SinkRequest::CommitSection(record)) ==> record@.size
                == record@.data.len(),
    {
        proof {
            use_type_invariant(self);
        }
        match self.phase {
            Phase::Open => Some(SinkRequest::Open),
            Phase::Header => Some(SinkRequest::CommitHeader(self.doc.ehdr)),
            Phase::Section(i) => {
                assert(self.doc@.scns[i as int] == self.doc.scns@[i as int]@);
                match section_record(&self.doc.scns[i], self.table.as_slice()) {
                    Ok(record) => Some(SinkRequest::CommitSection(record)),
                    Err(_) => unreached(),
                }
            },
            Phase::Finalize => Some(SinkRequest::Finalize),
            Phase::Close => Some(SinkRequest::Close),
            Phase::Release(_) => Some(SinkRequest::Close),
            Phase::Finished => None,
            Phase::Failed(_) => None,
        }
    }

    /// How the generation ended; `None` while a request is due.
    pub fn outcome(&self) -> (r: Option<Result<(), GenerateError>>)
        ensures
            r == outcome_of(self@),
    {
        match self.phase {
            Phase::Finished => Some(Ok(())),
            Phase::Failed(e) => Some(Err(e)),
            _ => None,
        }
    }

    /// Takes the sink's answer to the request that was due and moves on.
    pub fn advance_with(&mut self, reply: SinkReply)
        ensures
            final(self)@ == step(old(self)@, reply),
            consistent(final(self)@),
    {
        proof {
            use_type_invariant(&*self);
        }
        let sections: usize = self.doc.scns.len();
        let next: Phase = match self.phase {
            Phase::Open => match reply {
                SinkReply::Accepted => Phase::Header,
                SinkReply::Rejected(code) => Phase::Failed(GenerateError::SinkInitFailed(code)),
            },
            Phase::Header => match reply {
                SinkReply::Accepted => Phase::Section(0),
                SinkReply::Rejected(code) => Phase::Release(
                    GenerateError::HeaderCommitFailed(code),
                ),
            },
            Phase::Section(i) => match reply {
                SinkReply::Accepted => if i + 1 < sections {
                    Phase::Section(i + 1)
                } else {
                    Phase::Finalize
                },
                SinkReply::Rejected(code) => Phase::Release(
                    GenerateError::SectionCommitFailed(code),
                ),
            },
            Phase::Finalize => match reply {
                SinkReply::Accepted => Phase::Close,
                SinkReply::Rejected(code) => Phase::Release(GenerateError::FinalizeFailed(code)),
            },
            Phase::Close => match reply {
                SinkReply::Accepted => Phase::Finished,
                SinkReply::Rejected(code) => Phase::Failed(GenerateError::FinalizeFailed(code)),
            },
            Phase::Release(e) => Phase::Failed(e),
            Phase::Finished => Phase::Finished,
            Phase::Failed(e) => Phase::Failed(e),
        };
        self.phase = next;
    }

    /// Takes the sink's answer to the request that was due and moves on. For
    /// a rejected request the OS error code is the calling thread's current
    /// one, so this is to be called right after the sink has failed.
    pub fn advance(&mut self, accepted: bool)
        ensures
            accepted ==> final(self)@ == step(old(self)@, SinkReply::Accepted),
            !accepted ==> exists|code: i32|
                final(self)@ == #[trigger] step(old(self)@, SinkReply::Rejected(code)),
            consistent(final(self)@),
    {
        if accepted {
            self.advance_with(SinkReply::Accepted);
        } else {
            let code: i32 = last_os_error();
            self.advance_with(SinkReply::Rejected(code));
        }
    }
}

} // verus!

//! The write protocol as a state machine: which request is due in which
//! state, and which state follows the sink's answer. The requests go to the
//! sink in one fixed order; the first rejected one ends the generation.

use crate::error::GenerateError;
use crate::layout::{SectionRecord, SectionRecordView};
use crate::layout::{all_supported, kind_supported, payload_present, payloads_present, record_of};
use crate::models::{ElfHeader, ElfView, SectionType};
use crate::models::{disk_index, index_consistent};
use crate::strtab::{names_fit, section_names, string_table};
use crate::strtab::{law_table_pass_idempotent, with_name_offsets};
use vstd::prelude::*;

verus! {

/// What the sink is asked to do.
#[derive(Debug, Clone)]
pub enum SinkRequest {
    /// Set the format version, open the destination for writing and set up
    /// the writer state.
    Open,
    /// Create the file header with these fields and commit it.
    CommitHeader(ElfHeader),
    /// Create a section with this header and these bytes and commit it.
    CommitSection(SectionRecord),
    /// Lay the file out and flush all bytes to the destination.
    Finalize,
    /// Release the writer state.
    Close,
}

/// Mathematical value of a [`SinkRequest`].
pub ghost enum SinkRequestView {
    Open,
    CommitHeader(ElfHeader),
    CommitSection(SectionRecordView),
    Finalize,
    Close,
}

impl View for SinkRequest {
    type V = SinkRequestView;

    open spec fn view(&self) -> SinkRequestView {
        match *self {
            SinkRequest::Open => SinkRequestView::Open,
            SinkRequest::CommitHeader(ehdr) => SinkRequestView::CommitHeader(ehdr),
            SinkRequest::CommitSection(record) => SinkRequestView::CommitSection(record@),
            SinkRequest::Finalize => SinkRequestView::Finalize,
            SinkRequest::Close => SinkRequestView::Close,
        }
    }
}

/// How the sink answered a request.
#[derive(Debug, Copy, Clone, PartialEq, Eq, Structural)]
pub enum SinkReply {
    Accepted,
    /// The request failed; holds the OS error code.
    Rejected(i32),
}

/// Where a generation stands.
#[derive(Debug, Copy, Clone, PartialEq, Eq, Structural)]
pub enum Phase {
    /// The sink is to be opened.
    Open,
    /// The file header is to be committed.
    Header,
    /// The section with this index is to be committed.
    Section(usize),
    /// The file is to be laid out and flushed.
    Finalize,
    /// All is written; the writer state is to be released.
    Close,
    /// A request was rejected; the writer state is to be released before the
    /// failure is reported.
    Release(GenerateError),
    /// The generation has succeeded.
    Finished,
    /// The generation has failed.
    Failed(GenerateError),
}

/// Mathematical value of an [`Emitter`].
pub ghost struct EmitterView {
    /// The document, its name offsets assigned.
    pub doc: ElfView,
    /// The string table of the document.
    pub table: Seq<u8>,
    pub phase: Phase,
}

/// Whether a document can be handed to an emitter: the string table fits the
/// 32-bit offset field, every license and program section carries raw bytes,
/// and the header's index names the one string table of the document.
pub open spec fn well_formed(doc: ElfView) -> bool {
    &&& names_fit(doc.scns)
    &&& payloads_present(doc.scns)
    &&& index_consistent(doc)
}

/// The state in which a generation of `doc` starts: offsets assigned, table
/// built, nothing requested yet.
pub open spec fn initial(doc: ElfView) -> EmitterView {
    EmitterView {
        doc: ElfView { scns: with_name_offsets(doc.scns), ..doc },
        table: string_table(section_names(doc.scns)),
        phase: Phase::Open,
    }
}

/// What every state of an emitter satisfies.
pub open spec fn consistent(v: EmitterView) -> bool {
    &&& v.doc.scns.len() <= usize::MAX
    &&& well_formed(v.doc)
    &&& all_supported(v.doc.scns)
    &&& v.doc.scns == with_name_offsets(v.doc.scns)
    &&& v.table == string_table(section_names(v.doc.scns))
    &&& v.phase matches Phase::Section(i) ==> i < v.doc.scns.len()
}

/// The request that is due in a state; none once the generation is over.
pub open spec fn request_of(v: EmitterView) -> Option<SinkRequestView> {
    match v.phase {
        Phase::Open => Some(SinkRequestView::Open),
        Phase::Header => Some(SinkRequestView::CommitHeader(v.doc.ehdr)),
        Phase::Section(i) => Some(
            SinkRequestView::CommitSection(record_of(v.doc.scns[i as int], v.table)),
        ),
        Phase::Finalize => Some(SinkRequestView::Finalize),
        Phase::Close => Some(SinkRequestView::Close),
        Phase::Release(_) => Some(SinkRequestView::Close),
        Phase::Finished => None,
        Phase::Failed(_) => None,
    }
}

/// How the generation ended; none while a request is due.
pub open spec fn outcome_of(v: EmitterView) -> Option<Result<(), GenerateError>> {
    match v.phase {
        Phase::Finished => Some(Ok(())),
        Phase::Failed(e) => Some(Err(e)),
        _ => None,
    }
}

/// The phase that follows `phase` in a document of `sections` sections, at
/// least one, when the sink has answered `reply`.
///
/// Accepted requests follow one another in the fixed order. A rejected one
/// ends the generation: at once where no writer state is held (the sink did
/// not open, or its release failed), else after the writer state has been
/// released, whatever the sink answers to that.
pub open spec fn next_phase(phase: Phase, sections: nat, reply: SinkReply) -> Phase {
    match phase {
        Phase::Open => match reply {
            SinkReply::Accepted => Phase::Header,
            SinkReply::Rejected(code) => Phase::Failed(GenerateError::SinkInitFailed(code)),
        },
        Phase::Header => match reply {
            SinkReply::Accepted => Phase::Section(0),
            SinkReply::Rejected(code) => Phase::Release(GenerateError::HeaderCommitFailed(code)),
        },
        Phase::Section(i) => match reply {
            SinkReply::Accepted => if i + 1 < sections {
                Phase::Section((i + 1) as usize)
            } else {
                Phase::Finalize
            },
            SinkReply::Rejected(code) => Phase::Release(GenerateError::SectionCommitFailed(code)),
        },
        Phase::Finalize => match reply {
            SinkReply::Accepted => Phase::Close,
            SinkReply::Rejected(code) => Phase::Release(GenerateError::FinalizeFailed(code)),
        },
        Phase::Close => match reply {
            SinkReply::Accepted => Phase::Finished,
            SinkReply::Rejected(code) => Phase::Failed(GenerateError::FinalizeFailed(code)),
        },
        Phase::Release(e) => Phase::Failed(e),
        Phase::Finished => Phase::Finished,
        Phase::Failed(e) => Phase::Failed(e),
    }
}

/// The state after the sink has answered `reply` to the request that was due.
pub open spec fn step(v: EmitterView, reply: SinkReply) -> EmitterView {
    EmitterView { phase: next_phase(v.phase, v.doc.scns.len(), reply), ..v }
}

/// A generation of a well-formed document of supported kinds starts in a
/// consistent state.
pub proof fn lemma_initial_consistent(doc: ElfView)
    requires
        doc.scns.len() <= usize::MAX,
        well_formed(doc),
        all_supported(doc.scns),
    ensures
        consistent(initial(doc)),
{
    let after = with_name_offsets(doc.scns);
    law_table_pass_idempotent(doc.scns);
    assert forall|i: int| 0 <= i < after.len() implies kind_supported(#[trigger] after[i].kind)
        && payload_present(after[i]) && after[i].kind == doc.scns[i].kind by {
        assert(after[i].kind == doc.scns[i].kind);
        assert(after[i].data == doc.scns[i].data);
        assert(payload_present(doc.scns[i]));
    }
}

/// The requests of a generation in which the sink accepts everything: open,
/// the header, every section in the order of the document, finalize, close.
pub open spec fn script(v: EmitterView) -> Seq<SinkRequestView> {
    seq![SinkRequestView::Open, SinkRequestView::CommitHeader(v.doc.ehdr)] + Seq::new(
        v.doc.scns.len(),
        |i: int| SinkRequestView::CommitSection(record_of(v.doc.scns[i], v.table)),
    ) + seq![SinkRequestView::Finalize, SinkRequestView::Close]
}

/// `count` accepted requests.
pub open spec fn accepted(count: nat) -> Seq<SinkReply> {
    Seq::new(count, |i: int| SinkReply::Accepted)
}

/// The state after the sink has given `replies`, one to each request in turn.
pub open spec fn run(v: EmitterView, replies: Seq<SinkReply>) -> EmitterView
    decreases replies.len(),
{
    if replies.len() == 0 {
        v
    } else {
        step(run(v, replies.drop_last()), replies.last())
    }
}

/// The phase that a generation of `sections` sections, at least one, has
/// reached when its first `count` requests have been accepted.
pub open spec fn phase_after(count: nat, sections: nat) -> Phase {
    if count == 0 {
        Phase::Open
    } else if count == 1 {
        Phase::Header
    } else if count < 2 + sections {
        Phase::Section((count - 2) as usize)
    } else if count == 2 + sections {
        Phase::Finalize
    } else if count == 3 + sections {
        Phase::Close
    } else {
        Phase::Finished
    }
}

/// The failure that is reported when the request at position `at` of the
/// script of `sections` sections is rejected with `code`.
pub open spec fn rejection(at: nat, sections: nat, code: i32) -> GenerateError {
    if at == 0 {
        GenerateError::SinkInitFailed(code)
    } else if at == 1 {
        GenerateError::HeaderCommitFailed(code)
    } else if at < 2 + sections {
        GenerateError::SectionCommitFailed(code)
    } else {
        GenerateError::FinalizeFailed(code)
    }
}

/// A step changes the phase and nothing else, and keeps a state consistent.
pub proof fn law_step_keeps_consistent(v: EmitterView, reply: SinkReply)
    requires
        consistent(v),
    ensures
        consistent(step(v, reply)),
        step(v, reply).doc == v.doc,
        step(v, reply).table == v.table,
{
}

/// While the sink accepts, the phases follow one another in the fixed order.
pub proof fn lemma_accepted_run(start: EmitterView, count: nat)
    requires
        consistent(start),
        start.phase == Phase::Open,
    ensures
        run(start, accepted(count)) == (EmitterView {
            phase: phase_after(count, start.doc.scns.len()),
            ..start
        }),
    decreases count,
{
    if count > 0 {
        let before = (count - 1) as nat;
        lemma_accepted_run(start, before);
        assert(accepted(count).drop_last() =~= accepted(before));
        assert(accepted(count).last() == SinkReply::Accepted);
    }
}

/// In a generation in which the sink accepts everything, the request at each
/// position is the one that the script has there, none is skipped or moved,
/// and after the last one the generation has succeeded.
pub proof fn law_requests_in_order(start: EmitterView, count: nat)
    requires
        consistent(start),
        start.phase == Phase::Open,
        count <= script(start).len(),
    ensures
        script(start).len() == start.doc.scns.len() + 4,
        count < script(start).len() ==> request_of(run(start, accepted(count))) == Some(
            script(start)[count as int],
        ),
        count < script(start).len() ==> outcome_of(run(start, accepted(count))) is None,
        count == script(start).len() ==> request_of(run(start, accepted(count))) is None,
        count == script(start).len() ==> outcome_of(run(start, accepted(count))) == Some(
            Ok::<(), GenerateError>(()),
        ),
{
    lemma_accepted_run(start, count);
}

/// When the sink rejects a request after having accepted all before it, the
/// generation fails with the error of that step and the rejection's code. A
/// sink that did not open, or whose release failed, holds no writer state, and
/// the failure is reported at once. In every other step the one request that
/// follows is the release of the writer state, and the failure is reported
/// after it, whatever the sink answers to the release. No request is made a
/// second time.
pub proof fn law_first_rejection(start: EmitterView, at: nat, code: i32, release: SinkReply)
    requires
        consistent(start),
        start.phase == Phase::Open,
        at < script(start).len(),
    ensures
        ({
            let sections = start.doc.scns.len();
            let failed = run(start, accepted(at).push(SinkReply::Rejected(code)));
            let error = rejection(at, sections, code);
            if at == 0 || at == sections + 3 {
                &&& request_of(failed) is None
                &&& outcome_of(failed) == Some(Err::<(), GenerateError>(error))
            } else {
                &&& request_of(failed) == Some(SinkRequestView::Close)
                &&& outcome_of(failed) is None
                &&& request_of(step(failed, release)) is None
                &&& outcome_of(step(failed, release)) == Some(Err::<(), GenerateError>(error))
            }
        }),
{
    lemma_accepted_run(start, at);
    let replies = accepted(at).push(SinkReply::Rejected(code));
    assert(replies.drop_last() =~= accepted(at));
    assert(replies.last() == SinkReply::Rejected(code));
}

/// A generation that is over stays as it is: no request is due any more, and
/// no answer changes the outcome.
pub proof fn law_outcome_is_final(v: EmitterView, reply: SinkReply)
    ensures
        outcome_of(v) is Some <==> request_of(v) is None,
        outcome_of(v) is Some ==> step(v, reply) == v,
{
}

/// The header that is committed carries the position in the file of the
/// document's string-table section: sections are committed in the order of
/// the document, after the header, and the reserved null section comes before
/// them all.
pub proof fn law_index_consistent(start: EmitterView, i: int)
    requires
        consistent(start),
        0 <= i < start.doc.scns.len(),
        start.doc.scns[i].kind == SectionType::StrTab,
    ensures
        script(start)[1] == SinkRequestView::CommitHeader(start.doc.ehdr),
        start.doc.ehdr.shstridx == disk_index(i),
        script(start)[1 + disk_index(i)] == SinkRequestView::CommitSection(
            record_of(start.doc.scns[i], start.table),
        ),
        record_of(start.doc.scns[i], start.table).data == start.table,
{
}

/// The record of every section states as its size the
/// number of bytes that it carries, and those are the string table for the
/// string-table section and the section's own raw bytes for the others.
pub proof fn law_size_consistent(v: EmitterView, i: int)
    requires
        consistent(v),
        0 <= i < v.doc.scns.len(),
        v.table.len() <= usize::MAX,
        v.doc.scns[i].data is Data ==> v.doc.scns[i].data->Data_0.len() <= usize::MAX,
    ensures
        script(v)[2 + i] == SinkRequestView::CommitSection(record_of(v.doc.scns[i], v.table)),
        record_of(v.doc.scns[i], v.table).size == record_of(v.doc.scns[i], v.table).data.len(),
        record_of(v.doc.scns[i], v.table).data == (if v.doc.scns[i].kind == SectionType::StrTab {
            v.table
        } else {
            v.doc.scns[i].data->Data_0
        }),
{
    assert(kind_supported(v.doc.scns[i].kind));
    assert(payload_present(v.doc.scns[i]));
}

} // verus!

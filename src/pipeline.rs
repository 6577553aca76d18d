use crate::data_structurer::DbEntry;
use crate::error::MftError;
use crate::geometry::{VolumeGeometry, BOOT_FIELDS_END};
use crate::mft_parser::{entry_outcome, MftEntry};
use vstd::prelude::*;

verus! {

/// Where an ingest run stands.
#[derive(Debug, Clone, Copy, PartialEq, Eq, Structural)]
pub enum PipelineState {
    /// Waiting for the entry that the last `ReadEntry` asked for.
    Reading,
    /// Waiting for a chunk commit; reading resumes afterwards.
    ChunkCommitting,
    /// Waiting for the final commit.
    Finalizing,
    /// Every record was committed.
    Committed,
    /// The run stopped on a fatal error; the open batch was dropped.
    Aborted,
}

/// What the driver of the pipeline observed.
#[derive(Debug)]
pub enum IngestEvent {
    /// The whole entry block that was asked for.
    EntryRead(Vec<u8>),
    /// Fewer bytes than an entry were left: the table is exhausted.
    EndOfTable,
    /// The device failed while reading the entry.
    DeviceFault,
    /// The store committed the batch it was handed.
    CommitSucceeded,
    /// The store could not store or commit the batch.
    CommitFailed,
}

/// What the driver of the pipeline must do next.
#[derive(Debug)]
pub enum IngestAction {
    /// Read one entry of `ENTRY_SIZE` bytes at this byte offset.
    ReadEntry { index: u64, offset: u64 },
    /// Store these records in one transaction and commit it.
    Commit(Vec<DbEntry>),
    /// Nothing more: the run is over.
    Stop,
}

/// An entry that was read but could not be decoded.
#[derive(Debug, Clone, Copy, PartialEq, Eq, Structural)]
pub struct SkippedEntry {
    pub index: u64,
    pub reason: MftError,
}

/// Counts and terminal condition of a run.
#[derive(Debug, Clone, Copy, PartialEq, Eq, Structural)]
pub struct IngestOutcome {
    pub visited: u64,
    pub decoded: u64,
    pub skipped: u64,
    pub committed: u64,
    pub state: PipelineState,
    pub fault: Option<MftError>,
}

/// The record that a block decoded as `record_number` becomes.
pub open spec fn blank_record(record_number: u64) -> DbEntry {
    DbEntry { record_number, file_name: None, file_size: None, creation_time: None }
}

/// The read → decode → structure → commit loop as a state machine. Each
/// call of `step` takes what the driver observed and says what it must do
/// next. `chunk_limit` is the number of records after which a chunk is
/// committed mid-run; zero keeps the whole table in one transaction.
#[derive(Debug)]
pub struct IngestPipeline {
    pub geometry: VolumeGeometry,
    pub chunk_limit: usize,
    pub state: PipelineState,
    /// Index of the next entry to read; also the number of entries visited.
    pub next_index: u64,
    /// Records decoded since the last hand-off to the store.
    pub batch: Vec<DbEntry>,
    /// Records handed to the store and not yet acknowledged.
    pub in_flight: u64,
    pub decoded: u64,
    pub committed: u64,
    pub skipped: Vec<SkippedEntry>,
    pub fault: Option<MftError>,
}

impl IngestPipeline {
    pub open spec fn wf(self) -> bool {
        &&& self.geometry.wf()
        &&& self.decoded + self.skipped@.len() == self.next_index
        &&& self.committed + self.batch@.len() + self.in_flight <= self.decoded
        &&& (self.state is Aborted <==> self.fault is Some)
        &&& self.state is Reading ==> self.in_flight == 0 && self.geometry.entry_offset(
            self.next_index as int,
        ) <= u64::MAX
        &&& (self.state is Committed || self.state is Aborted) ==> self.in_flight == 0
        &&& !(self.state is Reading) ==> self.batch@.len() == 0
        &&& self.chunk_limit == 0 ==> !(self.state is ChunkCommitting)
        &&& self.chunk_limit == 0 && !(self.state is Committed) ==> self.committed == 0
    }

    /// Whether `post` keeps the run's settings.
    pub open spec fn same_run(self, post: Self) -> bool {
        &&& post.geometry == self.geometry
        &&& post.chunk_limit == self.chunk_limit
    }

    /// Whether `post` keeps the entry counts.
    pub open spec fn same_counts(self, post: Self) -> bool {
        &&& post.next_index == self.next_index
        &&& post.decoded == self.decoded
        &&& post.committed == self.committed
        &&& post.skipped@ == self.skipped@
    }

    /// Whether `post` and `action` abort the run with `e`, dropping the open
    /// batch.
    pub open spec fn aborts(self, post: Self, action: IngestAction, e: MftError) -> bool {
        &&& self.same_counts(post)
        &&& post.state == PipelineState::Aborted
        &&& post.fault == Some(e)
        &&& post.batch@.len() == 0
        &&& post.in_flight == 0
        &&& action is Stop
    }

    /// Whether `post` and `action` hand `pending` to the store and wait in
    /// `state`.
    pub open spec fn commits(post: Self, action: IngestAction, pending: Seq<DbEntry>, state: PipelineState) -> bool {
        &&& post.state == state
        &&& post.batch@.len() == 0
        &&& post.in_flight == pending.len()
        &&& action is Commit
        &&& action->Commit_0@ == pending
        &&& post.fault is None
    }

    /// Whether, with `pending` decoded and not yet handed off, `post` and
    /// `action` commit a full chunk, or read the entry at
    /// `post.next_index`, or, where that entry lies beyond the 64-bit byte
    /// range, finalize.
    pub open spec fn hands_off(self, post: Self, action: IngestAction, pending: Seq<DbEntry>) -> bool {
        if self.chunk_limit > 0 && pending.len() >= self.chunk_limit {
            Self::commits(post, action, pending, PipelineState::ChunkCommitting)
        } else if self.geometry.entry_offset(post.next_index as int) <= u64::MAX {
            &&& post.state == PipelineState::Reading
            &&& post.batch@ == pending
            &&& post.in_flight == 0
            &&& post.fault is None
            &&& action == IngestAction::ReadEntry {
                index: post.next_index,
                offset: self.geometry.entry_offset(post.next_index as int) as u64,
            }
        } else {
            Self::commits(post, action, pending, PipelineState::Finalizing)
        }
    }

    /// Resolves the geometry from the boot sector and asks for entry 0.
    /// Geometry failures end the run before any entry is read.
    pub fn start(boot_sector: &[u8], chunk_limit: usize) -> (r: Result<(IngestPipeline, IngestAction), MftError>)
        ensures
            boot_sector@.len() < BOOT_FIELDS_END ==> r is Err && r->Err_0 == MftError::GeometryReadError,
            boot_sector@.len() >= BOOT_FIELDS_END ==> match r {
                Ok((p, a)) => {
                    &&& p.wf()
                    &&& p.geometry.read_from(boot_sector@)
                    &&& p.chunk_limit == chunk_limit
                    &&& p.state == PipelineState::Reading
                    &&& p.next_index == 0
                    &&& p.decoded == 0
                    &&& p.committed == 0
                    &&& p.batch@.len() == 0
                    &&& p.skipped@.len() == 0
                    &&& a == IngestAction::ReadEntry {
                        index: 0,
                        offset: p.geometry.mft_offset() as u64,
                    }
                },
                Err(e) => e == MftError::InvalidGeometry && !(exists|g: VolumeGeometry|
                    #[trigger] g.read_from(boot_sector@) && g.wf()),
            },
    {
        let geometry = match VolumeGeometry::resolve(boot_sector) {
            Ok(g) => g,
            Err(e) => return Err(e),
        };
        let offset = match geometry.offset_of(0) {
            Some(o) => o,
            None => return Err(MftError::InvalidGeometry),
        };
        let p = IngestPipeline {
            geometry,
            chunk_limit,
            state: PipelineState::Reading,
            next_index: 0,
            batch: Vec::new(),
            in_flight: 0,
            decoded: 0,
            committed: 0,
            skipped: Vec::new(),
            fault: None,
        };
        Ok((p, IngestAction::ReadEntry { index: 0, offset }))
    }

    /// Takes the open batch, leaving it empty.
    fn take_batch(&mut self) -> (r: Vec<DbEntry>)
        ensures
            r@ == old(self).batch@,
            final(self).batch@.len() == 0,
            final(self).geometry == old(self).geometry,
            final(self).chunk_limit == old(self).chunk_limit,
            final(self).state == old(self).state,
            final(self).next_index == old(self).next_index,
            final(self).in_flight == old(self).in_flight,
            final(self).decoded == old(self).decoded,
            final(self).committed == old(self).committed,
            final(self).skipped@ == old(self).skipped@,
            final(self).fault == old(self).fault,
    {
        let mut taken: Vec<DbEntry> = Vec::new();
        std::mem::swap(&mut self.batch, &mut taken);
        taken
    }

    /// Hands the open batch to the store and waits in `state`.
    fn commit_batch(&mut self, state: PipelineState) -> (r: IngestAction)
        requires
            old(self).committed + old(self).batch@.len() <= old(self).decoded,
        ensures
            Self::commits(*final(self), r, old(self).batch@, state),
            old(self).same_run(*final(self)),
            old(self).same_counts(*final(self)),
    {
        let records = self.take_batch();
        self.in_flight = records.len() as u64;
        self.state = state;
        self.fault = None;
        IngestAction::Commit(records)
    }

    /// Commits a full chunk, or asks for the next entry, or finalizes.
    fn hand_off(&mut self) -> (r: IngestAction)
        requires
            old(self).geometry.wf(),
            old(self).committed + old(self).batch@.len() <= old(self).decoded,
        ensures
            old(self).hands_off(*final(self), r, old(self).batch@),
            old(self).same_run(*final(self)),
            old(self).same_counts(*final(self)),
    {
        if self.chunk_limit > 0 && self.batch.len() >= self.chunk_limit {
            return self.commit_batch(PipelineState::ChunkCommitting);
        }
        match self.geometry.offset_of(self.next_index) {
            Some(offset) => {
                self.state = PipelineState::Reading;
                self.in_flight = 0;
                self.fault = None;
                IngestAction::ReadEntry { index: self.next_index, offset }
            },
            None => self.commit_batch(PipelineState::Finalizing),
        }
    }

    /// Ends the run with the fatal error `e`.
    fn abort(&mut self, e: MftError) -> (r: IngestAction)
        ensures
            old(self).aborts(*final(self), r, e),
            old(self).same_run(*final(self)),
    {
        let _dropped = self.take_batch();
        self.in_flight = 0;
        self.state = PipelineState::Aborted;
        self.fault = Some(e);
        IngestAction::Stop
    }

    /// Advances the run by one observed event.
    ///
    /// While reading, a block is decoded: a success is appended to the batch,
    /// a failure is recorded with its index and skipped, and the run goes on.
    /// The end of the table finalizes; a device fault aborts. A commit
    /// acknowledgement resumes reading or completes the run; a failed commit
    /// aborts. An event that the state does not wait for aborts, and a
    /// finished run ignores every event.
    pub fn step(&mut self, event: IngestEvent) -> (r: IngestAction)
        requires
            old(self).wf(),
        ensures
            final(self).wf(),
            old(self).same_run(*final(self)),
            old(self).state is Reading && event is EntryRead ==> {
                let o = *old(self);
                let p = *final(self);
                &&& p.next_index == o.next_index + 1
                &&& p.committed == o.committed
                &&& match entry_outcome(event->EntryRead_0@) {
                    Ok(n) => {
                        &&& p.decoded == o.decoded + 1
                        &&& p.skipped@ == o.skipped@
                        &&& o.hands_off(p, r, o.batch@.push(blank_record(n)))
                    },
                    Err(e) => {
                        &&& p.decoded == o.decoded
                        &&& p.skipped@ == o.skipped@.push(SkippedEntry { index: o.next_index, reason: e })
                        &&& o.hands_off(p, r, o.batch@)
                    },
                }
            },
            old(self).state is Reading && event is EndOfTable ==> old(self).same_counts(*final(self))
                && Self::commits(*final(self), r, old(self).batch@, PipelineState::Finalizing),
            old(self).state is Reading && event is DeviceFault ==> old(self).aborts(
                *final(self),
                r,
                MftError::DeviceFault { index: old(self).next_index },
            ),
            old(self).state is ChunkCommitting && event is CommitSucceeded ==> {
                let o = *old(self);
                let p = *final(self);
                &&& p.next_index == o.next_index
                &&& p.decoded == o.decoded
                &&& p.skipped@ == o.skipped@
                &&& p.committed == o.committed + o.in_flight
                &&& o.hands_off(p, r, Seq::empty())
            },
            old(self).state is Finalizing && event is CommitSucceeded ==> {
                let o = *old(self);
                let p = *final(self);
                &&& p.state == PipelineState::Committed
                &&& p.next_index == o.next_index
                &&& p.decoded == o.decoded
                &&& p.skipped@ == o.skipped@
                &&& p.committed == o.committed + o.in_flight
                &&& p.in_flight == 0
                &&& p.fault is None
                &&& r is Stop
            },
            (old(self).state is ChunkCommitting || old(self).state is Finalizing) && event is CommitFailed
                ==> old(self).aborts(*final(self), r, MftError::StorageFailure),
            old(self).state is Reading && (event is CommitSucceeded || event is CommitFailed)
                ==> old(self).aborts(*final(self), r, MftError::UnexpectedEvent),
            (old(self).state is ChunkCommitting || old(self).state is Finalizing) && !(
            event is CommitSucceeded || event is CommitFailed) ==> old(self).aborts(
                *final(self),
                r,
                MftError::UnexpectedEvent,
            ),
            (old(self).state is Committed || old(self).state is Aborted) ==> *final(self) == *old(
                self,
            ) && r is Stop,
    {
        match self.state {
            PipelineState::Reading => match event {
                IngestEvent::EntryRead(block) => {
                    let index = self.next_index;
                    match MftEntry::parse(block.as_slice()) {
                        Ok(entry) => {
                            self.batch.push(DbEntry::from_mft_entry(entry));
                            self.decoded = self.decoded + 1;
                        },
                        Err(e) => {
                            self.skipped.push(SkippedEntry { index, reason: e });
                        },
                    }
                    self.next_index = index + 1;
                    self.hand_off()
                },
                IngestEvent::EndOfTable => self.commit_batch(PipelineState::Finalizing),
                IngestEvent::DeviceFault => {
                    let index = self.next_index;
                    self.abort(MftError::DeviceFault { index })
                },
                _ => self.abort(MftError::UnexpectedEvent),
            },
            PipelineState::ChunkCommitting => match event {
                IngestEvent::CommitSucceeded => {
                    self.committed = self.committed + self.in_flight;
                    self.in_flight = 0;
                    assert(self.batch@ =~= Seq::<DbEntry>::empty());
                    self.hand_off()
                },
                IngestEvent::CommitFailed => self.abort(MftError::StorageFailure),
                _ => self.abort(MftError::UnexpectedEvent),
            },
            PipelineState::Finalizing => match event {
                IngestEvent::CommitSucceeded => {
                    self.committed = self.committed + self.in_flight;
                    self.in_flight = 0;
                    self.state = PipelineState::Committed;
                    IngestAction::Stop
                },
                IngestEvent::CommitFailed => self.abort(MftError::StorageFailure),
                _ => self.abort(MftError::UnexpectedEvent),
            },
            PipelineState::Committed | PipelineState::Aborted => IngestAction::Stop,
        }
    }

    /// The counts and terminal condition so far.
    pub fn outcome(&self) -> (r: IngestOutcome)
        requires
            self.wf(),
        ensures
            r.visited == self.next_index,
            r.decoded == self.decoded,
            r.skipped == self.skipped@.len(),
            r.committed == self.committed,
            r.state == self.state,
            r.fault == self.fault,
    {
        IngestOutcome {
            visited: self.next_index,
            decoded: self.decoded,
            skipped: self.skipped.len() as u64,
            committed: self.committed,
            state: self.state,
            fault: self.fault,
        }
    }
}

} // verus!

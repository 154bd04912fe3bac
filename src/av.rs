//! The observable state of an asset writer: its status, its inputs and the
//! properties the native side reads back.
//!
//! The status moves `Unknown -> Writing -> Completed`, with `Cancelled` reachable
//! before completion and `Failed` when the writer reports an error while writing.
//! Inputs and the initial segment start time can only change before writing starts.
use vstd::prelude::*;

verus! {

/// The status of an asset writer.
#[derive(Clone, Copy, Debug, PartialEq, Eq, Structural)]
pub enum Status {
    /// Writing has not started.
    Unknown,
    /// The writer accepts samples.
    Writing,
    /// Every sample was written after `finish_writing`.
    Completed,
    /// The writer stopped because of the error in `error`.
    Failed,
    /// Writing was cancelled.
    Cancelled,
}

/// A media time: `value / timescale` seconds.
#[derive(Clone, Copy, Debug, PartialEq, Eq, Structural)]
pub struct Time {
    pub value: i64,
    pub timescale: i32,
    pub flags: u32,
    pub epoch: i64,
}

/// The invalid time, which every unset time property holds.
pub open spec fn invalid_time() -> Time {
    Time { value: 0, timescale: 0, flags: 0, epoch: 0 }
}

/// A profile of the output file type.
#[derive(Clone, Copy, Debug, PartialEq, Eq, Structural)]
pub enum FileTypeProfile {
    Mpeg4AppleHls,
    Mpeg4CmafCompliant,
}

/// The abstract state of a writer.
pub struct WriterState {
    pub status: Status,
    pub error: Option<i64>,
    pub inputs: Seq<usize>,
    pub should_optimize_for_network_use: bool,
    pub session_start: Option<Time>,
    pub session_end: Option<Time>,
    pub preferred_output_segment_interval: Time,
    pub initial_segment_start_time: Time,
    pub output_file_type_profile: Option<FileTypeProfile>,
    pub delegate: Option<usize>,
}

/// Whether `input` may still be added in state `s`.
pub open spec fn can_add(s: WriterState, input: usize) -> bool {
    s.status == Status::Unknown && !s.inputs.contains(input)
}

/// An asset writer.
pub struct Writer {
    status: Status,
    error: Option<i64>,
    inputs: Vec<usize>,
    should_optimize_for_network_use: bool,
    session_start: Option<Time>,
    session_end: Option<Time>,
    preferred_output_segment_interval: Time,
    initial_segment_start_time: Time,
    output_file_type_profile: Option<FileTypeProfile>,
    delegate: Option<usize>,
}

impl View for Writer {
    type V = WriterState;

    closed spec fn view(&self) -> WriterState {
        WriterState {
            status: self.status,
            error: self.error,
            inputs: self.inputs@,
            should_optimize_for_network_use: self.should_optimize_for_network_use,
            session_start: self.session_start,
            session_end: self.session_end,
            preferred_output_segment_interval: self.preferred_output_segment_interval,
            initial_segment_start_time: self.initial_segment_start_time,
            output_file_type_profile: self.output_file_type_profile,
            delegate: self.delegate,
        }
    }
}

impl Writer {
    /// A writer that has not started, with no inputs and every property unset.
    pub fn new() -> (w: Writer)
        ensures
            w@ == (WriterState {
                status: Status::Unknown,
                error: None,
                inputs: Seq::empty(),
                should_optimize_for_network_use: false,
                session_start: None,
                session_end: None,
                preferred_output_segment_interval: invalid_time(),
                initial_segment_start_time: invalid_time(),
                output_file_type_profile: None,
                delegate: None,
            }),
    {
        let zero = Time { value: 0, timescale: 0, flags: 0, epoch: 0 };
        let w = Writer {
            status: Status::Unknown,
            error: None,
            inputs: Vec::new(),
            should_optimize_for_network_use: false,
            session_start: None,
            session_end: None,
            preferred_output_segment_interval: zero,
            initial_segment_start_time: zero,
            output_file_type_profile: None,
            delegate: None,
        };
        assert(w@.inputs =~= Seq::<usize>::empty());
        w
    }

    pub fn status(&self) -> (r: Status)
        ensures
            r == self@.status,
    {
        self.status
    }

    /// The code of the error that made the writer fail, if it failed.
    pub fn error(&self) -> (r: Option<i64>)
        ensures
            r == self@.error,
    {
        self.error
    }

    /// The ids of the inputs, in the order they were added.
    pub fn inputs(&self) -> (r: &Vec<usize>)
        ensures
            r@ == self@.inputs,
    {
        &self.inputs
    }

    pub fn should_optimize_for_network_use(&self) -> (r: bool)
        ensures
            r == self@.should_optimize_for_network_use,
    {
        self.should_optimize_for_network_use
    }

    pub fn set_should_optimize_for_network_use(&mut self, value: bool)
        ensures
            final(self)@ == (WriterState { should_optimize_for_network_use: value, ..old(self)@ }),
    {
        self.should_optimize_for_network_use = value;
    }

    /// Whether `input` can be added: writing has not started and it is not there yet.
    pub fn can_add_input(&self, input: usize) -> (r: bool)
        ensures
            r == can_add(self@, input),
    {
        if self.status != Status::Unknown {
            return false;
        }
        let mut i: usize = 0;
        while i < self.inputs.len()
            invariant
                0 <= i <= self.inputs.len(),
                forall|j: int| 0 <= j < i ==> self.inputs@[j] != input,
            decreases self.inputs.len() - i,
        {
            if self.inputs[i] == input {
                return false;
            }
            i = i + 1;
        }
        true
    }

    /// Adds `input` when `can_add_input` allows it; returns whether it was added.
    pub fn add_input(&mut self, input: usize) -> (r: bool)
        ensures
            r == can_add(old(self)@, input),
            r ==> final(self)@ == (WriterState { inputs: old(self)@.inputs.push(input), ..old(self)@ }),
            !r ==> final(self)@ == old(self)@,
    {
        if self.can_add_input(input) {
            self.inputs.push(input);
            true
        } else {
            false
        }
    }

    /// Starts writing; returns whether the writer was waiting to start.
    pub fn start_writing(&mut self) -> (r: bool)
        ensures
            r == (old(self)@.status == Status::Unknown),
            r ==> final(self)@ == (WriterState { status: Status::Writing, ..old(self)@ }),
            !r ==> final(self)@ == old(self)@,
    {
        if self.status == Status::Unknown {
            self.status = Status::Writing;
            true
        } else {
            false
        }
    }

    /// Starts the sample-writing session at `start_time`, once, while writing.
    pub fn start_session_at_source_time(&mut self, start_time: Time)
        ensures
            (old(self)@.status == Status::Writing && old(self)@.session_start is None)
                ==> final(self)@ == (WriterState { session_start: Some(start_time), ..old(self)@ }),
            !(old(self)@.status == Status::Writing && old(self)@.session_start is None)
                ==> final(self)@ == old(self)@,
    {
        if self.status == Status::Writing && self.session_start.is_none() {
            self.session_start = Some(start_time);
        }
    }

    /// Ends the session at `end_time`, while writing and after the session started.
    pub fn end_session_at_source_time(&mut self, end_time: Time)
        ensures
            (old(self)@.status == Status::Writing && old(self)@.session_start is Some)
                ==> final(self)@ == (WriterState { session_end: Some(end_time), ..old(self)@ }),
            !(old(self)@.status == Status::Writing && old(self)@.session_start is Some)
                ==> final(self)@ == old(self)@,
    {
        if self.status == Status::Writing && self.session_start.is_some() {
            self.session_end = Some(end_time);
        }
    }

    /// Completes the file, if the writer is writing.
    pub fn finish_writing(&mut self)
        ensures
            old(self)@.status == Status::Writing
                ==> final(self)@ == (WriterState { status: Status::Completed, ..old(self)@ }),
            old(self)@.status != Status::Writing ==> final(self)@ == old(self)@,
    {
        if self.status == Status::Writing {
            self.status = Status::Completed;
        }
    }

    /// Cancels writing, if it has not completed or failed.
    pub fn cancel_writing(&mut self)
        ensures
            (old(self)@.status == Status::Unknown || old(self)@.status == Status::Writing)
                ==> final(self)@ == (WriterState { status: Status::Cancelled, ..old(self)@ }),
            !(old(self)@.status == Status::Unknown || old(self)@.status == Status::Writing)
                ==> final(self)@ == old(self)@,
    {
        if self.status == Status::Unknown || self.status == Status::Writing {
            self.status = Status::Cancelled;
        }
    }

    /// Records that writing failed with error `code`, if the writer is writing.
    pub fn fail_writing(&mut self, code: i64)
        ensures
            old(self)@.status == Status::Writing
                ==> final(self)@ == (WriterState { status: Status::Failed, error: Some(code), ..old(self)@ }),
            old(self)@.status != Status::Writing ==> final(self)@ == old(self)@,
    {
        if self.status == Status::Writing {
            self.status = Status::Failed;
            self.error = Some(code);
        }
    }

    pub fn preferred_output_segment_interval(&self) -> (r: Time)
        ensures
            r == self@.preferred_output_segment_interval,
    {
        self.preferred_output_segment_interval
    }

    pub fn set_preferred_output_segment_interval(&mut self, val: Time)
        ensures
            final(self)@ == (WriterState { preferred_output_segment_interval: val, ..old(self)@ }),
    {
        self.preferred_output_segment_interval = val;
    }

    pub fn initial_segment_start_time(&self) -> (r: Time)
        ensures
            r == self@.initial_segment_start_time,
    {
        self.initial_segment_start_time
    }

    /// Sets the start time of the first segment; ignored once writing has started.
    pub fn set_initial_segment_start_time(&mut self, val: Time)
        ensures
            old(self)@.status == Status::Unknown
                ==> final(self)@ == (WriterState { initial_segment_start_time: val, ..old(self)@ }),
            old(self)@.status != Status::Unknown ==> final(self)@ == old(self)@,
    {
        if self.status == Status::Unknown {
            self.initial_segment_start_time = val;
        }
    }

    pub fn output_file_type_profile(&self) -> (r: Option<FileTypeProfile>)
        ensures
            r == self@.output_file_type_profile,
    {
        self.output_file_type_profile
    }

    pub fn set_output_file_type_profile(&mut self, val: Option<FileTypeProfile>)
        ensures
            final(self)@ == (WriterState { output_file_type_profile: val, ..old(self)@ }),
    {
        self.output_file_type_profile = val;
    }

    /// The id of the delegate object, if one is set.
    pub fn delegate(&self) -> (r: Option<usize>)
        ensures
            r == self@.delegate,
    {
        self.delegate
    }

    pub fn set_delegate(&mut self, val: Option<usize>)
        ensures
            final(self)@ == (WriterState { delegate: val, ..old(self)@ }),
    {
        self.delegate = val;
    }
}

} // verus!

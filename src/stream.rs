use vstd::prelude::*;

use crate::buffer::{SharedBuffer, STREAM_CAPACITY};
use crate::error::{Operation, SdrError};
use crate::sample::{data_to_samples, samples_of, Sample};

verus! {

/// What a pull on the sample stream hands the consumer.
#[derive(Clone, Copy, Debug, PartialEq, Eq, Structural)]
pub enum Pull {
    /// First pull: start the acquisition loop, then pull again.
    Start,
    /// The oldest sample not yet consumed.
    Sample(Sample),
    /// Nothing ready yet; the producer may still deliver.
    Wait,
    /// Stopped and drained: no sample will ever come.
    End,
    /// The acquisition failed; the stream yields nothing more.
    Failed(SdrError),
}

/// What is known of a sample stream.
pub struct StreamModel {
    pub items: Seq<Sample>,
    pub cap: nat,
    pub started: bool,
    pub stopped: bool,
    pub failure: Option<SdrError>,
}

/// The state shared by the acquisition loop (the producer) and the consumer:
/// the sample buffer, the one-shot start latch, whether acquisition has
/// ended, and the failure that ended it, if any.
pub struct SampleStream {
    buffer: SharedBuffer,
    started: bool,
    stopped: bool,
    failure: Option<SdrError>,
}

impl View for SampleStream {
    type V = StreamModel;

    closed spec fn view(&self) -> StreamModel {
        StreamModel {
            items: self.buffer@,
            cap: self.buffer.cap(),
            started: self.started,
            stopped: self.stopped,
            failure: self.failure,
        }
    }
}

impl SampleStream {
    pub closed spec fn wf(&self) -> bool {
        self.buffer.wf()
    }

    /// A stream not yet started, whose buffer holds at most `capacity` samples.
    pub fn new(capacity: usize) -> (s: SampleStream)
        requires
            0 < capacity <= STREAM_CAPACITY,
        ensures
            s.wf(),
            s@ == (StreamModel {
                items: Seq::empty(),
                cap: capacity as nat,
                started: false,
                stopped: false,
                failure: None,
            }),
    {
        SampleStream { buffer: SharedBuffer::new(capacity), started: false, stopped: false, failure: None }
    }

    pub fn started(&self) -> (r: bool)
        ensures
            r == self@.started,
    {
        self.started
    }

    pub fn stopped(&self) -> (r: bool)
        ensures
            r == self@.stopped,
    {
        self.stopped
    }

    pub fn failure(&self) -> (r: Option<SdrError>)
        ensures
            r == self@.failure,
    {
        self.failure
    }

    /// The acquisition callback's work on one raw block: convert it and
    /// queue its samples in order. A block that does not fit is not queued at
    /// all, and the stream fails with `Overflow`; a stream that has failed
    /// takes nothing more.
    pub fn deliver(&mut self, data: Vec<u8>) -> (r: Result<(), SdrError>)
        requires
            old(self).wf(),
            data@.len() % 2 == 0,
        ensures
            final(self).wf(),
            final(self)@.cap == old(self)@.cap,
            final(self)@.started == old(self)@.started,
            final(self)@.stopped == old(self)@.stopped,
            old(self)@.failure is Some ==> r == Err::<(), SdrError>(old(self)@.failure->0)
                && final(self)@ == old(self)@,
            old(self)@.failure is None && old(self)@.items.len() + data@.len() / 2 <= old(self)@.cap
                ==> r == Ok::<(), SdrError>(()) && final(self)@.failure is None
                && final(self)@.items == old(self)@.items + samples_of(data@),
            old(self)@.failure is None && old(self)@.items.len() + data@.len() / 2 > old(self)@.cap
                ==> r == Err::<(), SdrError>(SdrError::Overflow) && final(self)@.failure == Some(
                SdrError::Overflow,
            ) && final(self)@.items == old(self)@.items,
    {
        if let Some(e) = self.failure {
            return Err(e);
        }
        let samples = data_to_samples(data);
        match self.buffer.push_all(&samples) {
            Ok(()) => Ok(()),
            Err(e) => {
                self.failure = Some(e);
                Err(e)
            },
        }
    }

    /// The driver's asynchronous read returned with `status`: nothing more
    /// will be delivered, and a non-zero status fails the stream unless it
    /// had already failed.
    pub fn acquisition_ended(&mut self, status: i32)
        requires
            old(self).wf(),
        ensures
            final(self).wf(),
            final(self)@ == (StreamModel {
                stopped: true,
                failure: if old(self)@.failure is None && status != 0 {
                    Some(SdrError::DriverError { operation: Operation::ReadAsync, code: status })
                } else {
                    old(self)@.failure
                },
                ..old(self)@
            }),
    {
        self.stopped = true;
        if self.failure.is_none() && status != 0 {
            self.failure = Some(SdrError::DriverError { operation: Operation::ReadAsync, code: status });
        }
    }

    /// The next element of the stream for the consumer. The first pull asks
    /// for the acquisition loop to be started, once; after that samples come
    /// out in the order they were delivered. A failure is reported on every
    /// pull from then on, and a stream that ended and is drained reports
    /// `End` rather than waiting forever.
    pub fn pull(&mut self) -> (r: Pull)
        requires
            old(self).wf(),
        ensures
            final(self).wf(),
            final(self)@.cap == old(self)@.cap,
            final(self)@.stopped == old(self)@.stopped,
            final(self)@.failure == old(self)@.failure,
            old(self)@.failure is None ==> final(self)@.started,
            old(self)@.failure is Some ==> r == Pull::Failed(old(self)@.failure->0)
                && final(self)@ == old(self)@,
            old(self)@.failure is None && !old(self)@.started ==> r == Pull::Start
                && final(self)@.items == old(self)@.items,
            old(self)@.failure is None && old(self)@.started && old(self)@.items.len() > 0 ==> r
                == Pull::Sample(old(self)@.items[0]) && final(self)@.items
                == old(self)@.items.drop_first(),
            old(self)@.failure is None && old(self)@.started && old(self)@.items.len() == 0 ==> r
                == (if old(self)@.stopped {
                Pull::End
            } else {
                Pull::Wait
            }) && final(self)@.items == old(self)@.items,
    {
        if let Some(e) = self.failure {
            return Pull::Failed(e);
        }
        if !self.started {
            self.started = true;
            return Pull::Start;
        }
        match self.buffer.pop() {
            Ok(s) => Pull::Sample(s),
            Err(_) => {
                if self.stopped {
                    Pull::End
                } else {
                    Pull::Wait
                }
            },
        }
    }
}

} // verus!

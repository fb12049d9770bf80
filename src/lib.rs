//! Core of a statistical CPU sampling profiler: the process-wide profiler
//! state machine, the address blocklist, the raw sample record and the
//! signal-safe pieces of the sampling path.
use vstd::prelude::*;

pub mod blocklist;
pub mod frames;
pub mod thread_name;

pub use frames::{StackBuffer, UnresolvedFrames};

verus! {

/// The largest number of stack frames kept in one sample.
pub const MAX_DEPTH: usize = 32;

/// The capacity of the thread-name buffer of one sample, in bytes.
pub const MAX_THREAD_NAME: usize = 16;

#[verifier::external_type_specification]
#[verifier::external_body]
pub struct ExErrno(nix::errno::Errno);

#[verifier::external_type_specification]
#[verifier::external_body]
pub struct ExIoError(std::io::Error);

/// What can go wrong when the profiler is created, started or stopped.
#[derive(Debug)]
pub enum Error {
    /// A signal call of the OS failed.
    NixError(nix::errno::Errno),
    /// Some other OS call failed.
    IoError(std::io::Error),
    /// The process-wide profiler could not be created.
    CreatingError,
    /// `start` was called while the profiler was running.
    Running,
    /// `stop` was called while the profiler was idle.
    NotRunning,
}

/// Whether `addr` lies strictly inside one of `segments`.
pub open spec fn in_segments(segments: Seq<(usize, usize)>, addr: usize) -> bool {
    exists|i: int| 0 <= i < segments.len() && segments[i].0 < addr && addr < segments[i].1
}

/// With no segments configured, no address is blocklisted.
pub proof fn lemma_empty_blocklist_filters_nothing(segments: Seq<(usize, usize)>, addr: usize)
    requires
        segments.len() == 0,
    ensures
        !in_segments(segments, addr),
{
}

/// The profiler's state, as its contracts see it.
pub struct ProfilerView {
    pub running: bool,
    pub sample_counter: nat,
    pub segments: Seq<(usize, usize)>,
}

/// The process-wide sampling profiler: idle or running, with the number of
/// samples taken since it was last started and the address ranges whose
/// interruptions are not sampled.
pub struct Profiler {
    sample_counter: u64,
    running: bool,
    blocklist_segments: Vec<(usize, usize)>,
}

impl View for Profiler {
    type V = ProfilerView;

    closed spec fn view(&self) -> ProfilerView {
        ProfilerView {
            running: self.running,
            sample_counter: self.sample_counter as nat,
            segments: self.blocklist_segments@,
        }
    }
}

impl Profiler {
    /// A fresh, idle profiler with no blocklist.
    pub fn new() -> (r: Result<Self, Error>)
        ensures
            r is Ok,
            r->Ok_0@ == (ProfilerView { running: false, sample_counter: 0, segments: seq![] }),
    {
        Ok(Profiler { sample_counter: 0, running: false, blocklist_segments: Vec::new() })
    }

    /// Whether `addr` lies strictly inside one of the configured segments.
    pub fn is_blocklisted(&self, addr: usize) -> (r: bool)
        ensures
            r == in_segments(self@.segments, addr),
    {
        let mut i: usize = 0;
        while i < self.blocklist_segments.len()
            invariant
                0 <= i <= self.blocklist_segments@.len(),
                forall|k: int|
                    0 <= k < i ==> !(self.blocklist_segments@[k].0 < addr
                        && addr < self.blocklist_segments@[k].1),
            decreases self.blocklist_segments@.len() - i,
        {
            let seg = self.blocklist_segments[i];
            if addr > seg.0 && addr < seg.1 {
                return true;
            }
            i = i + 1;
        }
        false
    }

    /// Whether the profiler is running.
    pub fn is_running(&self) -> (r: bool)
        ensures
            r == self@.running,
    {
        self.running
    }

    /// The number of samples taken since the profiler was last started.
    pub fn sample_count(&self) -> (r: u64)
        ensures
            r as nat == self@.sample_counter,
    {
        self.sample_counter
    }

    /// The configured blocklist segments.
    pub fn blocklist_segments(&self) -> (r: &Vec<(usize, usize)>)
        ensures
            r@ == self@.segments,
    {
        &self.blocklist_segments
    }

    /// Starts the profiler. When it is idle, `register` installs the OS
    /// signal handler; the profiler runs from then on, with its sample count
    /// at zero. A failed registration is returned and changes nothing. When it
    /// is already running, `Running` is returned and `register` is not called.
    pub fn start<F: FnOnce() -> Result<(), Error>>(&mut self, register: F) -> (r: Result<
        (),
        Error,
    >)
        requires
            register.requires(()),
        ensures
            old(self)@.running ==> r is Err && r->Err_0 is Running && final(self)@ == old(self)@,
            !old(self)@.running ==> register.ensures((), r),
            !old(self)@.running && r is Ok ==> final(self)@ == (ProfilerView {
                running: true,
                sample_counter: 0,
                ..old(self)@
            }),
            !old(self)@.running && r is Err ==> final(self)@ == old(self)@,
    {
        if self.running {
            Err(Error::Running)
        } else {
            let registered = register();
            if registered.is_ok() {
                self.running = true;
                self.sample_counter = 0;
            }
            registered
        }
    }

    /// Resets the profiler to idle with a zero sample count, keeping its
    /// blocklist.
    pub fn init(&mut self) -> (r: Result<(), Error>)
        ensures
            r is Ok,
            final(self)@ == (ProfilerView {
                running: false,
                sample_counter: 0,
                ..old(self)@
            }),
    {
        self.sample_counter = 0;
        self.running = false;
        Ok(())
    }

    /// Stops the profiler. When it is running, `unregister` restores the
    /// signal's disposition to ignore; the profiler is then idle with a zero
    /// sample count. A failed call is returned and changes nothing. When it is
    /// idle, `NotRunning` is returned and `unregister` is not called.
    pub fn stop<F: FnOnce() -> Result<(), Error>>(&mut self, unregister: F) -> (r: Result<
        (),
        Error,
    >)
        requires
            unregister.requires(()),
        ensures
            !old(self)@.running ==> r is Err && r->Err_0 is NotRunning
                && final(self)@ == old(self)@,
            old(self)@.running ==> unregister.ensures((), r),
            old(self)@.running && r is Ok ==> final(self)@ == (ProfilerView {
                running: false,
                sample_counter: 0,
                ..old(self)@
            }),
            old(self)@.running && r is Err ==> final(self)@ == old(self)@,
    {
        if self.running {
            let unregistered = unregister();
            if unregistered.is_ok() {
                let _ = self.init();
            }
            unregistered
        } else {
            Err(Error::NotRunning)
        }
    }

    /// Whether an interruption at `pc` is to be sampled: not when the program
    /// counter is known and lies inside a blocklisted segment.
    pub fn should_sample(&self, pc: Option<usize>) -> (r: bool)
        ensures
            r == !(pc is Some && in_segments(self@.segments, pc->Some_0)),
    {
        match pc {
            Some(addr) => !self.is_blocklisted(addr),
            None => true,
        }
    }

    /// Takes one sample: builds its record and counts it. Signal-safe: it
    /// neither blocks nor allocates.
    pub fn sample(&mut self, backtrace: StackBuffer, thread_name: &[u8], thread_id: u64) -> (r:
        UnresolvedFrames)
        requires
            old(self)@.sample_counter < u64::MAX,
            thread_name@.len() <= MAX_THREAD_NAME,
        ensures
            final(self)@ == (ProfilerView {
                sample_counter: old(self)@.sample_counter + 1,
                ..old(self)@
            }),
            r.frames == backtrace,
            r.thread_name@ == frames::padded_name(thread_name@),
            r.thread_name_length == thread_name@.len(),
            r.thread_id == thread_id,
    {
        let frames = UnresolvedFrames::new(backtrace, thread_name, thread_id);
        self.sample_counter = self.sample_counter + 1;
        frames
    }
}

/// Configuration of the profiler: the address ranges to leave unsampled.
/// Starting it installs them in the process-wide profiler and starts it.
#[derive(Clone, Debug)]
pub struct ProfilerGuardBuilder {
    blocklist_segments: Vec<(usize, usize)>,
}

impl View for ProfilerGuardBuilder {
    type V = Seq<(usize, usize)>;

    closed spec fn view(&self) -> Seq<(usize, usize)> {
        self.blocklist_segments@
    }
}

impl Default for ProfilerGuardBuilder {
    fn default() -> (r: ProfilerGuardBuilder)
        ensures
            r@ == Seq::<(usize, usize)>::empty(),
    {
        ProfilerGuardBuilder { blocklist_segments: Vec::new() }
    }
}

impl ProfilerGuardBuilder {
    /// Blocklists every loaded segment of each shared library, loaded now,
    /// whose name contains one of the substrings in `blocklist`.
    pub fn blocklist(self, blocklist: &[&str]) -> (r: Self)
        ensures
            exists|libs: Seq<blocklist::LoadedLibrary>|
                r@ == blocklist::blocked_ranges(libs, blocklist::patterns(blocklist@)),
    {
        ProfilerGuardBuilder {
            blocklist_segments: blocklist::current_blocklist_segments(blocklist),
        }
    }

    /// Blocklists the given `(start, end)` ranges, in place of any earlier
    /// blocklist.
    pub fn blocklist_segments(self, segments: Vec<(usize, usize)>) -> (r: Self)
        ensures
            r@ == segments@,
    {
        ProfilerGuardBuilder { blocklist_segments: segments }
    }

    /// Starts `profiler`, the process-wide profiler, with this blocklist.
    /// When the profiler could not be created, `CreatingError` is returned.
    /// Otherwise it is started as `Profiler::start` does, and on success its
    /// blocklist is replaced by this one; on failure nothing changes.
    pub fn start<F: FnOnce() -> Result<(), Error>>(
        self,
        profiler: &mut Result<Profiler, Error>,
        register: F,
    ) -> (r: Result<(), Error>)
        requires
            register.requires(()),
        ensures
            (*old(profiler)) is Err ==> r is Err && r->Err_0 is CreatingError && (*final(profiler))
                == (*old(profiler)),
            (*old(profiler)) is Ok ==> (*final(profiler)) is Ok,
            (*old(profiler)) is Ok && (*old(profiler))->Ok_0@.running ==> r is Err && r->Err_0 is Running
                && (*final(profiler))->Ok_0@ == (*old(profiler))->Ok_0@,
            (*old(profiler)) is Ok && !(*old(profiler))->Ok_0@.running ==> register.ensures((), r),
            (*old(profiler)) is Ok && !(*old(profiler))->Ok_0@.running && r is Ok
                ==> (*final(profiler))->Ok_0@ == (ProfilerView {
                running: true,
                sample_counter: 0,
                segments: self@,
            }),
            (*old(profiler)) is Ok && !(*old(profiler))->Ok_0@.running && r is Err
                ==> (*final(profiler))->Ok_0@ == (*old(profiler))->Ok_0@,
    {
        match profiler {
            Err(_) => Err(Error::CreatingError),
            Ok(p) => {
                let started = p.start(register);
                if started.is_ok() {
                    p.blocklist_segments = self.blocklist_segments;
                }
                started
            },
        }
    }
}

} // verus!

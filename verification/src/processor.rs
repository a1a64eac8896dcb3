//! Playback state machine: the single owner of transport state, timing
//! anchors and the active track's duration.
//!
//! The processor never performs I/O. Each handler receives the current
//! instant and the worker's observations of the real sink as plain values,
//! updates the model, and returns the [`SinkEffect`] the worker must apply.
//! Opening a decoder can fail outside, so loading and seeking are two-phase:
//! the handler asks for an [`SinkEffect::Open`], and the worker reports the
//! outcome through [`Processor::loaded`], [`Processor::seek_done`] or
//! [`Processor::load_failed`].

use vstd::prelude::*;

use crate::clock::ProgressClock;
use crate::protocol::{clamped_volume, AudioCommand, AudioState, Reply, SinkEffect};
use crate::protocol::{UNKNOWN_TOTAL_MS, VOLUME_FULL};

verus! {

/// The worker's whole model of the playback session.
#[derive(Clone, Copy, Debug)]
pub struct Processor {
    /// Current transport state.
    pub state: AudioState,
    /// Elapsed-time accounting for the active track.
    pub clock: ProgressClock,
    /// Total duration of the active track in ms, once known.
    pub track_duration: Option<u64>,
}

impl Processor {
    /// Internal consistency: the clock runs exactly while playing, and an
    /// empty session keeps no timing or duration data.
    pub open spec fn wf(self) -> bool {
        &&& self.clock.is_running() <==> self.state is Playing
        &&& self.state is Empty ==> self.clock == ProgressClock::zeroed() && self.track_duration is None
    }

    /// The state with no active session: what `Empty` stands for.
    pub open spec fn cleared() -> Processor {
        Processor { state: AudioState::Empty, clock: ProgressClock::zeroed(), track_duration: None }
    }

    /// The drain guard: a sink observed empty forces the session to `Empty`
    /// before a state-affecting query is answered.
    pub open spec fn after_drain(self, sink_empty: bool) -> Processor {
        if sink_empty {
            Processor::cleared()
        } else {
            self
        }
    }

    /// `Play`: resume a paused session; a no-op when playing or empty.
    pub open spec fn spec_play(self, now: u64) -> Processor {
        if self.state is Paused {
            Processor {
                state: AudioState::Playing,
                clock: ProgressClock {
                    elapsed_before_pause: self.clock.elapsed_before_pause,
                    start_instant: Some(now),
                },
                track_duration: self.track_duration,
            }
        } else {
            self
        }
    }

    /// `Pause`: freeze a playing session; a no-op when paused or empty.
    pub open spec fn spec_pause(self, now: u64) -> Processor {
        if self.state is Playing {
            Processor {
                state: AudioState::Paused,
                clock: ProgressClock {
                    elapsed_before_pause: self.clock.elapsed_at(now),
                    start_instant: None,
                },
                track_duration: self.track_duration,
            }
        } else {
            self
        }
    }

    /// `Skip`: with no further buffered material the session stops; with
    /// more material the next buffered item starts playing from zero.
    pub open spec fn spec_skip(self, now: u64, sink_len: usize) -> Processor {
        if sink_len <= 1 {
            Processor::cleared()
        } else {
            Processor {
                state: AudioState::Playing,
                clock: ProgressClock { elapsed_before_pause: 0, start_instant: Some(now) },
                track_duration: None,
            }
        }
    }

    /// The elapsed value a progress query reports: zero with no session,
    /// otherwise the clock reading, clamped to the total duration once that
    /// is known (progress never exceeds the end of the track).
    pub open spec fn progress_reply(self, now: u64) -> u64 {
        if self.state is Empty {
            0
        } else {
            let e: u64 = self.clock.elapsed_at(now);
            match self.track_duration {
                Option::Some(d) => if e >= d { d } else { e },
                Option::None => e,
            }
        }
    }

    /// The natural-end rule: a progress query that finds a playing session
    /// at or past its known total duration ends the session.
    pub open spec fn progress_step(self, now: u64) -> Processor {
        if self.state is Playing && (self.track_duration matches Some(d)
            && self.clock.elapsed_at(now) >= d) {
            Processor::cleared()
        } else {
            self
        }
    }

    /// The total duration a query reports: the active track's duration when
    /// known, the sentinel otherwise.
    pub open spec fn total_reply(self) -> u64 {
        if self.state is Empty {
            UNKNOWN_TOTAL_MS
        } else {
            match self.track_duration {
                Option::Some(d) => d,
                Option::None => UNKNOWN_TOTAL_MS,
            }
        }
    }

    /// A fresh processor with no session.
    pub fn new() -> (p: Processor)
        ensures
            p == Processor::cleared(),
            p.wf(),
    {
        Processor {
            state: AudioState::Empty,
            clock: ProgressClock::new(),
            track_duration: None,
        }
    }

    /// Handle `Play` at instant `now`.
    ///
    /// Resuming does not change the elapsed reading at the resume instant:
    /// the clock continues from the frozen value.
    pub fn handle_play(&mut self, now: u64) -> (eff: SinkEffect)
        requires
            old(self).wf(),
        ensures
            final(self).wf(),
            *final(self) == old(self).spec_play(now),
            eff matches SinkEffect::Play <==> old(self).state is Paused,
            !(old(self).state is Paused) ==> eff matches SinkEffect::Noop,
            final(self).clock.elapsed_at(now) == old(self).clock.elapsed_at(now),
    {
        match self.state {
            AudioState::Paused => {
                self.clock.resume(now);
                self.state = AudioState::Playing;
                SinkEffect::Play
            },
            _ => SinkEffect::Noop,
        }
    }

    /// Handle `Pause` at instant `now`.
    ///
    /// Freezing does not change the elapsed reading at the freeze instant,
    /// and afterwards the reading no longer depends on time.
    pub fn handle_pause(&mut self, now: u64) -> (eff: SinkEffect)
        requires
            old(self).wf(),
        ensures
            final(self).wf(),
            *final(self) == old(self).spec_pause(now),
            eff matches SinkEffect::Pause <==> old(self).state is Playing,
            !(old(self).state is Playing) ==> eff matches SinkEffect::Noop,
            final(self).clock.elapsed_at(now) == old(self).clock.elapsed_at(now),
            !final(self).clock.is_running(),
    {
        match self.state {
            AudioState::Playing => {
                self.clock.freeze(now);
                self.state = AudioState::Paused;
                SinkEffect::Pause
            },
            _ => SinkEffect::Noop,
        }
    }

    /// Handle `Skip` at instant `now`, given how many sources the sink holds.
    ///
    /// Issued while `Empty` the sink holds nothing, so the session stays
    /// `Empty` and no error is raised.
    pub fn handle_skip(&mut self, now: u64, sink_len: usize) -> (eff: SinkEffect)
        requires
            old(self).wf(),
        ensures
            final(self).wf(),
            *final(self) == old(self).spec_skip(now, sink_len),
            sink_len <= 1 ==> eff matches SinkEffect::Stop,
            sink_len > 1 ==> eff matches SinkEffect::SkipOne,
    {
        if sink_len <= 1 {
            self.state = AudioState::Empty;
            self.clock = ProgressClock::new();
            self.track_duration = None;
            SinkEffect::Stop
        } else {
            self.state = AudioState::Playing;
            self.clock.start(now);
            self.track_duration = None;
            SinkEffect::SkipOne
        }
    }

    /// Answer `GetState`: apply the drain guard, then report the state.
    pub fn query_state(&mut self, sink_empty: bool) -> (s: AudioState)
        requires
            old(self).wf(),
        ensures
            final(self).wf(),
            *final(self) == old(self).after_drain(sink_empty),
            s == final(self).state,
    {
        if sink_empty {
            self.state = AudioState::Empty;
            self.clock = ProgressClock::new();
            self.track_duration = None;
        }
        self.state
    }

    /// Answer `GetProgress` at instant `now`: apply the drain guard and the
    /// natural-end rule, then report the elapsed playing time.
    pub fn query_progress(&mut self, now: u64, sink_empty: bool) -> (e: u64)
        requires
            old(self).wf(),
        ensures
            final(self).wf(),
            *final(self) == old(self).after_drain(sink_empty).progress_step(now),
            e == old(self).after_drain(sink_empty).progress_reply(now),
    {
        if sink_empty {
            self.state = AudioState::Empty;
            self.clock = ProgressClock::new();
            self.track_duration = None;
        }
        match self.state {
            AudioState::Empty => 0,
            _ => {
                let e: u64 = self.clock.elapsed_ms(now);
                match self.track_duration {
                    Some(d) => {
                        if e >= d {
                            if matches!(self.state, AudioState::Playing) {
                                self.state = AudioState::Empty;
                                self.clock = ProgressClock::new();
                                self.track_duration = None;
                            }
                            d
                        } else {
                            e
                        }
                    },
                    None => e,
                }
            },
        }
    }

    /// Answer `GetTrackDuration`: the active track's total duration, or the
    /// sentinel when no track is active or the duration is unknown.
    pub fn query_total_duration(&self) -> (d: u64)
        ensures
            d == self.total_reply(),
    {
        match self.state {
            AudioState::Empty => UNKNOWN_TOTAL_MS,
            _ => {
                match self.track_duration {
                    Some(d) => d,
                    None => UNKNOWN_TOTAL_MS,
                }
            },
        }
    }

    /// A requested load succeeded: whatever was active before is discarded,
    /// the new track plays from the start, and elapsed is reset to zero.
    pub fn loaded(&mut self, duration_ms: Option<u64>, now: u64)
        ensures
            final(self).wf(),
            *final(self) == (Processor {
                state: AudioState::Playing,
                clock: ProgressClock { elapsed_before_pause: 0, start_instant: Some(now) },
                track_duration: duration_ms,
            }),
            final(self).clock.elapsed_at(now) == 0,
    {
        self.state = AudioState::Playing;
        self.clock.start(now);
        self.track_duration = duration_ms;
    }

    /// A requested load or seek failed outside (file missing or
    /// undecodable): the error is local and the model is left exactly as it
    /// was.
    pub fn load_failed(&mut self)
        ensures
            *final(self) == *old(self),
    {
    }

    /// A requested seek succeeded: elapsed becomes exactly `position_ms` and
    /// the transport state is preserved, playing or paused.
    pub fn seek_done(&mut self, position_ms: u64, now: u64)
        requires
            old(self).wf(),
            !(old(self).state is Empty),
        ensures
            final(self).wf(),
            *final(self) == (Processor {
                state: old(self).state,
                clock: ProgressClock {
                    elapsed_before_pause: position_ms,
                    start_instant: if old(self).state is Playing { Some(now) } else { None },
                },
                track_duration: old(self).track_duration,
            }),
            final(self).state == old(self).state,
            final(self).clock.elapsed_at(now) == position_ms,
    {
        let keep_running = matches!(self.state, AudioState::Playing);
        self.clock.seek(position_ms, keep_running, now);
    }

    /// Route one command: update the model and produce the sink effect to
    /// perform and the reply to send, exactly as [`Processor::commanded`]
    /// states.
    pub fn handle_command(
        &mut self,
        cmd: AudioCommand,
        now: u64,
        sink_empty: bool,
        sink_len: usize,
    ) -> (r: (SinkEffect, Option<Reply>))
        requires
            old(self).wf(),
        ensures
            final(self).wf(),
            Processor::commanded(*old(self), cmd, now, sink_empty, sink_len, *final(self), r.0, r.1),
    {
        match cmd {
            AudioCommand::GetProgress => {
                let e: u64 = self.query_progress(now, sink_empty);
                (SinkEffect::Noop, Some(Reply::Progress(e)))
            },
            AudioCommand::GetState => {
                let s = self.query_state(sink_empty);
                (SinkEffect::Noop, Some(Reply::State(s)))
            },
            AudioCommand::GetTrackDuration => {
                let d: u64 = self.query_total_duration();
                (SinkEffect::Noop, Some(Reply::TotalDuration(d)))
            },
            AudioCommand::Pause => (self.handle_pause(now), None),
            AudioCommand::Play => (self.handle_play(now), None),
            AudioCommand::PlaySong(path) => {
                (SinkEffect::Open { path, offset_ms: 0 }, None)
            },
            AudioCommand::SetProgress(position_ms, path) => {
                match self.state {
                    AudioState::Empty => (SinkEffect::Noop, None),
                    _ => (SinkEffect::Open { path, offset_ms: position_ms }, None),
                }
            },
            AudioCommand::SetVolume(level) => {
                (SinkEffect::SetVolume(clamped_volume(level)), None)
            },
            AudioCommand::Skip => (self.handle_skip(now, sink_len), None),
        }
    }

    /// A `Pause` command applied at each instant of `times`, in order. While
    /// a session is not playing every such command is a no-op, so this is
    /// the shape of "any sequence of commands between a pause and the resume
    /// that follows it".
    pub open spec fn run_redundant_pauses(p: Processor, times: Seq<u64>) -> Processor
        decreases times.len(),
    {
        if times.len() == 0 {
            p
        } else {
            Processor::run_redundant_pauses(p.spec_pause(times[0]), times.drop_first())
        }
    }

    proof fn lemma_redundant_pauses_are_noops(p: Processor, times: Seq<u64>)
        requires
            !(p.state is Playing),
        ensures
            Processor::run_redundant_pauses(p, times) == p,
        decreases times.len(),
    {
        if times.len() > 0 {
            Processor::lemma_redundant_pauses_are_noops(p, times.drop_first());
        }
    }

    /// Law: freezing and resuming never loses time. For any playing session,
    /// after `Pause` at `t_pause`, any further sequence of `Pause`/`Play`
    /// commands with no intervening load or seek (which, from `Paused`, can
    /// only be redundant pauses before the one resuming `Play`), and that
    /// `Play` at `t_resume`, the elapsed reading immediately after the
    /// resume equals the reading immediately before the pause.
    pub proof fn lemma_pause_resume_preserves_elapsed(
        p: Processor,
        t_pause: u64,
        mid: Seq<u64>,
        t_resume: u64,
    )
        requires
            p.wf(),
            p.state is Playing,
        ensures
            ({
                let resumed = Processor::run_redundant_pauses(p.spec_pause(t_pause), mid)
                    .spec_play(t_resume);
                &&& resumed.state is Playing
                &&& resumed.clock.elapsed_at(t_resume) == p.clock.elapsed_at(t_pause)
            }),
    {
        Processor::lemma_redundant_pauses_are_noops(p.spec_pause(t_pause), mid);
    }

    /// Law: the reported progress is monotonically non-decreasing while the
    /// session is playing.
    pub proof fn lemma_progress_monotone_while_playing(p: Processor, t1: u64, t2: u64)
        requires
            p.wf(),
            p.state is Playing,
            t1 <= t2,
        ensures
            p.progress_reply(t1) <= p.progress_reply(t2),
    {
        p.clock.lemma_elapsed_monotone(t1, t2);
    }

    /// Law: the reported progress is constant while the session is paused,
    /// however much wall time passes.
    pub proof fn lemma_progress_constant_while_paused(p: Processor, t1: u64, t2: u64)
        requires
            p.wf(),
            p.state is Paused,
        ensures
            p.progress_reply(t1) == p.progress_reply(t2),
    {
        p.clock.lemma_elapsed_frozen(t1, t2);
    }

    /// Law: once the total duration is known, the reported progress never
    /// exceeds it.
    pub proof fn lemma_progress_never_exceeds_total(p: Processor, now: u64)
        requires
            p.track_duration matches Some(d),
        ensures
            p.progress_reply(now) <= p.track_duration->0,
    {
    }

    /// The transition relation of the command protocol: how `post`, the
    /// effect and the reply follow from `pre` and one command.
    pub open spec fn commanded(
        pre: Processor,
        cmd: AudioCommand,
        now: u64,
        sink_empty: bool,
        sink_len: usize,
        post: Processor,
        eff: SinkEffect,
        reply: Option<Reply>,
    ) -> bool {
        match cmd {
            AudioCommand::GetProgress => {
                &&& post == pre.after_drain(sink_empty).progress_step(now)
                &&& eff is Noop
                &&& reply == Some(Reply::Progress(pre.after_drain(sink_empty).progress_reply(now)))
            },
            AudioCommand::GetState => {
                &&& post == pre.after_drain(sink_empty)
                &&& eff is Noop
                &&& reply == Some(Reply::State(post.state))
            },
            AudioCommand::GetTrackDuration => {
                &&& post == pre
                &&& eff is Noop
                &&& reply == Some(Reply::TotalDuration(pre.total_reply()))
            },
            AudioCommand::Pause => {
                &&& post == pre.spec_pause(now)
                &&& (eff matches SinkEffect::Pause <==> pre.state is Playing)
                &&& reply is None
            },
            AudioCommand::Play => {
                &&& post == pre.spec_play(now)
                &&& (eff matches SinkEffect::Play <==> pre.state is Paused)
                &&& reply is None
            },
            AudioCommand::PlaySong(path) => {
                &&& post == pre
                &&& eff matches SinkEffect::Open { path: p, offset_ms } && p == path
                    && offset_ms == 0
                &&& reply is None
            },
            AudioCommand::SetProgress(position_ms, path) => {
                &&& post == pre
                &&& if pre.state is Empty {
                    eff is Noop
                } else {
                    eff matches SinkEffect::Open { path: p, offset_ms } && p == path
                        && offset_ms == position_ms
                }
                &&& reply is None
            },
            AudioCommand::SetVolume(level) => {
                &&& post == pre
                &&& eff == SinkEffect::SetVolume(
                    if level > VOLUME_FULL { VOLUME_FULL } else { level },
                )
                &&& reply is None
            },
            AudioCommand::Skip => {
                &&& post == pre.spec_skip(now, sink_len)
                &&& (sink_len <= 1 ==> eff is Stop)
                &&& (sink_len > 1 ==> eff is SkipOne)
                &&& reply is None
            },
        }
    }
}

} // verus!

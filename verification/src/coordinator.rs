//! The playback coordination state machine.
//!
//! The [`Coordinator`] owns the queue and the coordinator-side playback
//! state, and decides every transition; the unverified shell around the
//! library owns the audio engine and the control-surface transport and
//! only carries values between them and this module.
//!
//! A transport command is processed in two halves.  The `begin_*`
//! methods decide what the engine must be asked to do (which track to
//! load, whether to proceed) and perform the queue movement that
//! precedes the engine call.  The caller performs the engine calls and
//! reports their outcome to the matching `on_*` method, which applies
//! the state transition — on a failed engine call the state is left
//! unchanged — and returns the message to push to the control surface,
//! if any.  The periodic tick is split the same way: refresh the
//! stored position and duration, absorb a pending end-of-stream,
//! produce the periodic playback report, and publish metadata once it
//! becomes available.

use vstd::prelude::*;
use crate::bridge::MprisCommand;
use crate::meta::TrackMetadata;
use crate::queue::{next_cursor, prev_cursor, select_or_push_post, Queue, QueueModel};

verus! {

/// Transport state of the playback engine as the coordinator tracks
/// it.  `Stopped` doubles as "nothing loaded" (idle).
#[derive(Clone, Copy, Debug, PartialEq, Eq, Structural)]
pub enum PlaybackStatus {
    Stopped,
    Playing,
    Paused,
}

/// Mathematical model of a [`Coordinator`].
pub ghost struct CoordModel {
    /// Whether an audio engine is present; without one every transport
    /// command is a no-op.
    pub engine: bool,
    /// Model of the playback queue.
    pub queue: QueueModel,
    /// Transport state.
    pub status: PlaybackStatus,
    /// Last known playback position, in milliseconds.
    pub position: u64,
    /// Duration of the loaded track in milliseconds, when known.
    pub duration: Option<u64>,
    /// Whether the loaded track's metadata still has to be published
    /// to the control surface.
    pub pending: bool,
}

impl CoordModel {
    /// The queue is well formed, and the position never runs past a
    /// known duration.
    pub open spec fn wf(self) -> bool {
        &&& self.queue.wf()
        &&& (self.duration matches Some(d) ==> self.position <= d)
    }
}

/// Model change of a confirmed `play` request: the status becomes
/// `Playing` and the metadata publish is re-armed.  A failed request,
/// or a missing engine, changes nothing.
pub open spec fn play_step(m: CoordModel, ok: bool) -> CoordModel {
    if m.engine && ok {
        CoordModel { status: PlaybackStatus::Playing, pending: true, ..m }
    } else {
        m
    }
}

/// Model change of a confirmed `pause` request.
pub open spec fn pause_step(m: CoordModel, ok: bool) -> CoordModel {
    if m.engine && ok {
        CoordModel { status: PlaybackStatus::Paused, ..m }
    } else {
        m
    }
}

/// Model change of a confirmed `stop` request: the position returns
/// to zero.
pub open spec fn stop_step(m: CoordModel, ok: bool) -> CoordModel {
    if m.engine && ok {
        CoordModel { status: PlaybackStatus::Stopped, position: 0, ..m }
    } else {
        m
    }
}

/// Model change after a newly selected track was loaded and started:
/// playback begins at position zero, the duration is unknown again,
/// and the metadata publish is re-armed.
pub open spec fn track_started_step(m: CoordModel, ok: bool) -> CoordModel {
    if m.engine && ok {
        CoordModel {
            status: PlaybackStatus::Playing,
            pending: true,
            position: 0,
            duration: None,
            ..m
        }
    } else {
        m
    }
}

/// Model change of a position/duration refresh: a known answer
/// replaces the stored value, and the position is clamped so it never
/// runs past a known duration.
pub open spec fn refresh_step(m: CoordModel, pos: Option<u64>, dur: Option<u64>) -> CoordModel {
    if m.engine {
        let d = if dur is Some {
            dur
        } else {
            m.duration
        };
        let p0 = match pos {
            Some(p) => p,
            None => m.position,
        };
        let p = match d {
            Some(dv) => if p0 <= dv {
                p0
            } else {
                dv
            },
            None => p0,
        };
        CoordModel { position: p, duration: d, ..m }
    } else {
        m
    }
}

/// Whether a metadata publish fires: one is pending and at least one
/// metadata field or the track length is known.
pub open spec fn flush_fires(m: CoordModel, has_info: bool) -> bool {
    m.engine && m.pending && has_info
}

/// Model change of a metadata publish attempt: when it fires, the
/// pending flag is cleared — and nothing else changes.
pub open spec fn flush_step(m: CoordModel, has_info: bool) -> CoordModel {
    if flush_fires(m, has_info) {
        CoordModel { pending: false, ..m }
    } else {
        m
    }
}

/// The seek target for a fraction of the duration: the fraction is
/// given in thousandths and clamped to [0, 1000] before multiplying.
pub open spec fn seek_target(d: u64, frac_milli: u32) -> int {
    let f: int = if frac_milli <= 1000 {
        frac_milli as int
    } else {
        1000
    };
    d * f / 1000
}

/// The playback coordination state machine.
pub struct Coordinator {
    queue: Queue,
    engine_present: bool,
    status: PlaybackStatus,
    position_ms: u64,
    duration_ms: Option<u64>,
    pending_publish: bool,
}

impl View for Coordinator {
    type V = CoordModel;

    closed spec fn view(&self) -> CoordModel {
        CoordModel {
            engine: self.engine_present,
            queue: self.queue@,
            status: self.status,
            position: self.position_ms,
            duration: self.duration_ms,
            pending: self.pending_publish,
        }
    }
}

impl Coordinator {
    /// Well-formedness of the coordinator, stated over its model.
    pub open spec fn wf(&self) -> bool {
        self@.wf()
    }

    /// A fresh coordinator: empty queue, nothing loaded, nothing
    /// pending.  `engine_present` records whether an audio engine
    /// could be initialised; when it could not, every transport
    /// command below is a no-op and only the queue remains editable.
    pub fn new(engine_present: bool) -> (c: Coordinator)
        ensures
            c@.engine == engine_present,
            c@.queue.tracks == Seq::<Seq<char>>::empty(),
            c@.queue.cursor == 0,
            c@.status == PlaybackStatus::Stopped,
            c@.position == 0,
            c@.duration is None,
            !c@.pending,
            c.wf(),
    {
        Coordinator {
            queue: Queue::new(),
            engine_present,
            status: PlaybackStatus::Stopped,
            position_ms: 0,
            duration_ms: None,
            pending_publish: false,
        }
    }

    /// Whether an audio engine is present.
    pub fn engine_present(&self) -> (b: bool)
        ensures
            b == self@.engine,
    {
        self.engine_present
    }

    /// Current transport state.
    pub fn status(&self) -> (s: PlaybackStatus)
        ensures
            s == self@.status,
    {
        self.status
    }

    /// Last known playback position in milliseconds.
    pub fn position_ms(&self) -> (p: u64)
        ensures
            p == self@.position,
    {
        self.position_ms
    }

    /// Duration of the loaded track in milliseconds, when known.
    pub fn duration_ms(&self) -> (d: Option<u64>)
        ensures
            d == self@.duration,
    {
        self.duration_ms
    }

    /// Whether the loaded track's metadata still has to be published.
    pub fn metadata_flush_pending(&self) -> (b: bool)
        ensures
            b == self@.pending,
    {
        self.pending_publish
    }

    /// Read-only access to the playback queue.
    pub fn queue(&self) -> (q: &Queue)
        ensures
            q@ == self@.queue,
    {
        &self.queue
    }

    /// Appends a track to the queue without starting playback.  This
    /// works with or without an engine.
    pub fn enqueue(&mut self, path: String)
        requires
            old(self).wf(),
        ensures
            final(self)@ == (CoordModel {
                queue: QueueModel {
                    tracks: old(self)@.queue.tracks.push(path@),
                    cursor: old(self)@.queue.cursor,
                },
                ..old(self)@
            }),
            final(self).wf(),
    {
        self.queue.push(path);
    }

    /// First half of the Play command: names the track that must be
    /// loaded before the engine is told to play.  A track comes back
    /// exactly when the engine is present, nothing is loaded (status
    /// `Stopped`) and the queue has a current element; the caller
    /// loads it, issues `play`, and reports the outcome to
    /// [`Self::on_play`].
    pub fn begin_play(&self) -> (r: Option<String>)
        requires
            self.wf(),
        ensures
            (r is Some) <==> (self@.engine && self@.status == PlaybackStatus::Stopped
                && self@.queue.tracks.len() > 0),
            r matches Some(t) ==> t@ == self@.queue.tracks[self@.queue.cursor as int],
    {
        if self.engine_present && self.status == PlaybackStatus::Stopped {
            self.queue.current()
        } else {
            None
        }
    }

    /// Applies the outcome of an engine `play` request: on success the
    /// status becomes `Playing`, the metadata publish is re-armed, and
    /// the playback report to push comes back.  On failure, or with no
    /// engine, nothing changes and nothing is pushed.
    pub fn on_play(&mut self, ok: bool) -> (r: Option<MprisCommand>)
        requires
            old(self).wf(),
        ensures
            final(self)@ == play_step(old(self)@, ok),
            (r is Some) <==> (old(self)@.engine && ok),
            r matches Some(c) ==> c == (MprisCommand::SetPlayback {
                playing: true,
                position: Some(old(self)@.position),
            }),
            final(self).wf(),
    {
        if self.engine_present && ok {
            self.status = PlaybackStatus::Playing;
            self.pending_publish = true;
            Some(MprisCommand::SetPlayback { playing: true, position: Some(self.position_ms) })
        } else {
            None
        }
    }

    /// Applies the outcome of an engine `pause` request: on success
    /// the status becomes `Paused` and the playback report to push
    /// comes back; otherwise nothing changes.
    pub fn on_pause(&mut self, ok: bool) -> (r: Option<MprisCommand>)
        requires
            old(self).wf(),
        ensures
            final(self)@ == pause_step(old(self)@, ok),
            (r is Some) <==> (old(self)@.engine && ok),
            r matches Some(c) ==> c == (MprisCommand::SetPlayback {
                playing: false,
                position: Some(old(self)@.position),
            }),
            final(self).wf(),
    {
        if self.engine_present && ok {
            self.status = PlaybackStatus::Paused;
            Some(MprisCommand::SetPlayback { playing: false, position: Some(self.position_ms) })
        } else {
            None
        }
    }

    /// Applies the outcome of an engine `stop` request: on success the
    /// status becomes `Stopped`, the position returns to zero, and the
    /// playback report to push comes back; otherwise nothing changes.
    pub fn on_stop(&mut self, ok: bool) -> (r: Option<MprisCommand>)
        requires
            old(self).wf(),
        ensures
            final(self)@ == stop_step(old(self)@, ok),
            (r is Some) <==> (old(self)@.engine && ok),
            r matches Some(c) ==> c == (MprisCommand::SetPlayback {
                playing: false,
                position: Some(0u64),
            }),
            final(self).wf(),
    {
        if self.engine_present && ok {
            self.status = PlaybackStatus::Stopped;
            self.position_ms = 0;
            Some(MprisCommand::SetPlayback { playing: false, position: Some(0) })
        } else {
            None
        }
    }

    /// First half of the Load command: records the chosen track in the
    /// queue — the cursor moves to its first occurrence, or the track
    /// is appended and selected — so that Next and Previous stay
    /// consistent with direct loads.  Returns whether to proceed: on
    /// `true` the caller loads the path, issues `play`, and reports
    /// the outcome to [`Self::on_track_started`].  With no engine
    /// nothing happens.
    pub fn begin_load(&mut self, path: String) -> (proceed: bool)
        requires
            old(self).wf(),
        ensures
            proceed == old(self)@.engine,
            !proceed ==> final(self)@ == old(self)@,
            proceed ==> select_or_push_post(old(self)@.queue, path@, final(self)@.queue),
            proceed ==> final(self)@ == (CoordModel { queue: final(self)@.queue, ..old(self)@ }),
            final(self).wf(),
    {
        if self.engine_present {
            self.queue.select_or_push(path);
            true
        } else {
            false
        }
    }

    /// First half of the Next command: with an engine and a non-empty
    /// queue, advances the cursor one step (wrapping past the end) and
    /// returns the newly selected track; the caller loads and plays it
    /// and reports the outcome to [`Self::on_track_started`].
    /// Otherwise nothing changes and nothing has to be loaded.
    pub fn begin_next(&mut self) -> (r: Option<String>)
        requires
            old(self).wf(),
        ensures
            (r is Some) <==> (old(self)@.engine && old(self)@.queue.tracks.len() > 0),
            r is None ==> final(self)@ == old(self)@,
            r matches Some(t) ==> {
                &&& final(self)@.queue.cursor == next_cursor(
                    old(self)@.queue.cursor,
                    old(self)@.queue.tracks.len(),
                )
                &&& t@ == old(self)@.queue.tracks[final(self)@.queue.cursor as int]
                &&& final(self)@ == (CoordModel {
                    queue: QueueModel {
                        tracks: old(self)@.queue.tracks,
                        cursor: final(self)@.queue.cursor,
                    },
                    ..old(self)@
                })
            },
            final(self).wf(),
    {
        if self.engine_present {
            self.queue.next()
        } else {
            None
        }
    }

    /// First half of the Previous command: the mirror image of
    /// [`Self::begin_next`], retreating the cursor with wraparound.
    pub fn begin_prev(&mut self) -> (r: Option<String>)
        requires
            old(self).wf(),
        ensures
            (r is Some) <==> (old(self)@.engine && old(self)@.queue.tracks.len() > 0),
            r is None ==> final(self)@ == old(self)@,
            r matches Some(t) ==> {
                &&& final(self)@.queue.cursor == prev_cursor(
                    old(self)@.queue.cursor,
                    old(self)@.queue.tracks.len(),
                )
                &&& t@ == old(self)@.queue.tracks[final(self)@.queue.cursor as int]
                &&& final(self)@ == (CoordModel {
                    queue: QueueModel {
                        tracks: old(self)@.queue.tracks,
                        cursor: final(self)@.queue.cursor,
                    },
                    ..old(self)@
                })
            },
            final(self).wf(),
    {
        if self.engine_present {
            self.queue.prev()
        } else {
            None
        }
    }

    /// Applies the outcome of loading and starting a newly selected
    /// track (from Load, Next, Previous or the end-of-stream advance):
    /// on success playback begins at position zero with the duration
    /// unknown again, the metadata publish is re-armed, and the
    /// playback report to push comes back.  On failure nothing
    /// changes.
    pub fn on_track_started(&mut self, ok: bool) -> (r: Option<MprisCommand>)
        requires
            old(self).wf(),
        ensures
            final(self)@ == track_started_step(old(self)@, ok),
            (r is Some) <==> (old(self)@.engine && ok),
            r matches Some(c) ==> c == (MprisCommand::SetPlayback {
                playing: true,
                position: Some(0u64),
            }),
            final(self).wf(),
    {
        if self.engine_present && ok {
            self.status = PlaybackStatus::Playing;
            self.pending_publish = true;
            self.position_ms = 0;
            self.duration_ms = None;
            Some(MprisCommand::SetPlayback { playing: true, position: Some(0) })
        } else {
            None
        }
    }

    /// Tick, first part: refreshes position and duration from the
    /// engine's best-effort answers.  An unknown answer keeps the
    /// stored value; the position is clamped so it never runs past a
    /// known duration.
    pub fn tick_refresh(&mut self, position_ms: Option<u64>, duration_ms: Option<u64>)
        requires
            old(self).wf(),
        ensures
            final(self)@ == refresh_step(old(self)@, position_ms, duration_ms),
            final(self).wf(),
    {
        if self.engine_present {
            if let Some(d) = duration_ms {
                self.duration_ms = Some(d);
            }
            if let Some(p) = position_ms {
                self.position_ms = p;
            }
            if let Some(d) = self.duration_ms {
                if self.position_ms > d {
                    self.position_ms = d;
                }
            }
        }
    }

    /// Tick, second part: absorbs the single-shot end-of-stream
    /// signal.  When it was raised, the queue advances exactly as for
    /// the Next command — on a one-track queue the cursor wraps back
    /// to the same track — and the returned track must be loaded and
    /// played again, with the outcome reported to
    /// [`Self::on_track_started`].
    pub fn tick_eos(&mut self, eos: bool) -> (r: Option<String>)
        requires
            old(self).wf(),
        ensures
            (r is Some) <==> (old(self)@.engine && eos && old(self)@.queue.tracks.len() > 0),
            r is None ==> final(self)@ == old(self)@,
            r matches Some(t) ==> {
                &&& final(self)@.queue.cursor == next_cursor(
                    old(self)@.queue.cursor,
                    old(self)@.queue.tracks.len(),
                )
                &&& t@ == old(self)@.queue.tracks[final(self)@.queue.cursor as int]
                &&& final(self)@ == (CoordModel {
                    queue: QueueModel {
                        tracks: old(self)@.queue.tracks,
                        cursor: final(self)@.queue.cursor,
                    },
                    ..old(self)@
                })
            },
            final(self).wf(),
    {
        if eos {
            self.begin_next()
        } else {
            None
        }
    }

    /// Tick, third part: the periodic playback report for the control
    /// surface.  Nothing is produced without an engine.
    pub fn tick_playback_push(&self) -> (r: Option<MprisCommand>)
        ensures
            (r is Some) <==> self@.engine,
            r matches Some(c) ==> c == (MprisCommand::SetPlayback {
                playing: self@.status == PlaybackStatus::Playing,
                position: Some(self@.position),
            }),
    {
        if self.engine_present {
            Some(MprisCommand::SetPlayback {
                playing: self.status == PlaybackStatus::Playing,
                position: Some(self.position_ms),
            })
        } else {
            None
        }
    }

    /// Tick, last part: publishes the loaded track's metadata to the
    /// control surface exactly once — only while a publish is pending,
    /// and only once at least one metadata field or the track length
    /// is known.  `md` and `length_ms` are the engine's latest answers.
    pub fn flush_metadata(&mut self, md: &TrackMetadata, length_ms: Option<u64>) -> (r: Option<
        MprisCommand,
    >)
        requires
            old(self).wf(),
        ensures
            final(self)@ == flush_step(old(self)@, md.has_any() || length_ms is Some),
            (r is Some) <==> flush_fires(old(self)@, md.has_any() || length_ms is Some),
            r matches Some(c) ==> c == (MprisCommand::SetMetadata {
                title: md.title,
                artist: md.artist,
                album: md.album,
                length: length_ms,
            }),
            final(self).wf(),
    {
        if self.engine_present && self.pending_publish && (md.any_known() || length_ms.is_some()) {
            self.pending_publish = false;
            let title = md.title.clone();
            let artist = md.artist.clone();
            let album = md.album.clone();
            Some(MprisCommand::SetMetadata { title, artist, album, length: length_ms })
        } else {
            None
        }
    }

    /// Seek to a fraction of the known duration, given in thousandths
    /// and clamped to [0, 1000].  Fires only with an engine and a
    /// known positive duration.  Returns the absolute target the
    /// engine must be asked to seek to, paired with the immediate
    /// (optimistic) playback report for the control surface — pushed
    /// ahead of any engine confirmation.
    pub fn seek_to(&mut self, frac_milli: u32) -> (r: Option<(u64, MprisCommand)>)
        requires
            old(self).wf(),
        ensures
            (r is Some) <==> (old(self)@.engine && (old(self)@.duration matches Some(d) && d
                > 0)),
            r is None ==> final(self)@ == old(self)@,
            r matches Some(p) ==> {
                &&& old(self)@.duration matches Some(d) && p.0 == seek_target(d, frac_milli)
                &&& final(self)@ == (CoordModel { position: p.0, ..old(self)@ })
                &&& p.1 == (MprisCommand::SetPlayback {
                    playing: old(self)@.status == PlaybackStatus::Playing,
                    position: Some(p.0),
                })
            },
            final(self).wf(),
    {
        if self.engine_present {
            if let Some(d) = self.duration_ms {
                if d > 0 {
                    let f: u32 = if frac_milli <= 1000 {
                        frac_milli
                    } else {
                        1000
                    };
                    proof {
                        assert((d as int) * (f as int) / 1000 <= d as int) by (nonlinear_arith)
                            requires
                                0 <= d,
                                f <= 1000,
                        ;
                    }
                    let target: u64 = ((d as u128) * (f as u128) / 1000) as u64;
                    self.position_ms = target;
                    let cmd = MprisCommand::SetPlayback {
                        playing: self.status == PlaybackStatus::Playing,
                        position: Some(target),
                    };
                    Some((target, cmd))
                } else {
                    None
                }
            } else {
                None
            }
        } else {
            None
        }
    }

    /// Seek to an absolute position in milliseconds, as the control
    /// surface requests it; the target is clamped to the known
    /// duration.  The same gating and the same optimistic report as
    /// [`Self::seek_to`] apply.
    pub fn seek_to_ms(&mut self, target_ms: u64) -> (r: Option<(u64, MprisCommand)>)
        requires
            old(self).wf(),
        ensures
            (r is Some) <==> (old(self)@.engine && (old(self)@.duration matches Some(d) && d
                > 0)),
            r is None ==> final(self)@ == old(self)@,
            r matches Some(p) ==> {
                &&& old(self)@.duration matches Some(d) && p.0 == (if target_ms <= d {
                    target_ms
                } else {
                    d
                })
                &&& final(self)@ == (CoordModel { position: p.0, ..old(self)@ })
                &&& p.1 == (MprisCommand::SetPlayback {
                    playing: old(self)@.status == PlaybackStatus::Playing,
                    position: Some(p.0),
                })
            },
            final(self).wf(),
    {
        if self.engine_present {
            if let Some(d) = self.duration_ms {
                if d > 0 {
                    let target: u64 = if target_ms <= d {
                        target_ms
                    } else {
                        d
                    };
                    self.position_ms = target;
                    let cmd = MprisCommand::SetPlayback {
                        playing: self.status == PlaybackStatus::Playing,
                        position: Some(target),
                    };
                    Some((target, cmd))
                } else {
                    None
                }
            } else {
                None
            }
        } else {
            None
        }
    }
}

/// Law: every transition preserves well-formedness — in particular
/// the position never runs past a known duration, whatever sequence
/// of play, pause, stop, track-start, refresh and publish steps the
/// coordinator goes through.
pub proof fn lemma_steps_preserve_wf(
    m: CoordModel,
    ok: bool,
    pos: Option<u64>,
    dur: Option<u64>,
    has_info: bool,
)
    requires
        m.wf(),
    ensures
        play_step(m, ok).wf(),
        pause_step(m, ok).wf(),
        stop_step(m, ok).wf(),
        track_started_step(m, ok).wf(),
        refresh_step(m, pos, dur).wf(),
        flush_step(m, has_info).wf(),
{
}

/// Law: pausing twice in a row leaves exactly the state reached after
/// pausing once, whatever the outcome of the second request.
pub proof fn lemma_pause_idempotent(m: CoordModel, ok2: bool)
    ensures
        pause_step(pause_step(m, true), ok2) == pause_step(m, true),
{
}

/// Law: a successful track start arms the metadata publish; while
/// nothing is known no publish fires and the publish stays armed; and
/// once one publish fires, no second one can fire until another track
/// start re-arms it.
pub proof fn lemma_metadata_published_exactly_once(m: CoordModel, has_info1: bool, has_info2: bool)
    requires
        m.engine,
    ensures
        track_started_step(m, true).pending,
        !has_info1 ==> !flush_fires(track_started_step(m, true), has_info1),
        !has_info1 ==> flush_step(track_started_step(m, true), has_info1).pending,
        flush_fires(track_started_step(m, true), has_info1) ==> !flush_fires(
            flush_step(track_started_step(m, true), has_info1),
            has_info2,
        ),
{
}

} // verus!

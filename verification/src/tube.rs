//! The tube entity: a resonant air column anchored at a base point, rising
//! vertically, with an open/stopped mode, a selection flag and an oscillator
//! voice.
//!
//! The audio graph is a platform collaborator.  The core never talks to it
//! directly: every operation appends explicit [`AudioCmd`] values to a
//! command buffer, and the surrounding application performs them against the
//! real oscillator and gain nodes.  The voice state carried here (playing,
//! ever started) mirrors what those commands have made the collaborator do.

use vstd::prelude::*;

use crate::COORD_LIMIT;
use crate::acoustics::spec_closed_frequency;
use crate::acoustics::spec_frequency;
use crate::acoustics::closed_frequency;
use crate::acoustics::frequency_of;
use crate::acoustics::length_for_frequency;
use crate::acoustics::spec_length_for_frequency;
use crate::geometry::Point;
use crate::geometry::Rectangle;
use crate::geometry::Segment;

verus! {

/// One command for the audio collaborator.  An oscillator node can be
/// started and stopped only once each; pausing and resuming act on the
/// voice's intermediate gain stage instead.
#[derive(Clone, Copy, Debug, PartialEq, Eq, Structural)]
pub enum AudioCmd {
    /// Create an oscillator voice with the given frequency (mHz), wired
    /// through its own gain stage into the master output.
    Create { id: usize, frequency: u64 },
    /// Start the oscillator (legal once per voice).
    Start { id: usize },
    /// Set the intermediate gain back to one: resume after a pause.
    Resume { id: usize },
    /// Ramp the intermediate gain linearly from one to zero.
    FadeOut { id: usize },
    /// Push a new frequency (mHz) to the oscillator's frequency parameter.
    SetFrequency { id: usize, frequency: u64 },
    /// Stop the oscillator for good; the voice is discarded with it.
    Stop { id: usize },
}

/// An oscillator voice: the identifier of its nodes in the collaborator,
/// the frequency last pushed to it, and its playback state.
#[derive(Clone, Copy, Debug, PartialEq, Eq, Structural)]
pub struct AudioSource {
    pub id: usize,
    pub frequency: u64,
    pub playing: bool,
    pub played: bool,
}

/// A voice that is playing has necessarily been started once.
pub open spec fn source_wf(s: AudioSource) -> bool {
    s.playing ==> s.played
}

/// The voice after a start request: playing, and started at least once.
pub open spec fn spec_started(s: AudioSource) -> AudioSource {
    AudioSource { playing: true, played: true, ..s }
}

/// What a start request tells the collaborator: nothing if already
/// playing, a one-time start if never started, a gain resume otherwise.
pub open spec fn spec_start_cmds(s: AudioSource) -> Seq<AudioCmd> {
    if s.playing {
        Seq::empty()
    } else if !s.played {
        seq![AudioCmd::Start { id: s.id }]
    } else {
        seq![AudioCmd::Resume { id: s.id }]
    }
}

/// The voice after a pause request.
pub open spec fn spec_paused(s: AudioSource) -> AudioSource {
    AudioSource { playing: false, ..s }
}

/// What a pause request tells the collaborator: a gain fade-out, and only
/// if the voice was playing.
pub open spec fn spec_pause_cmds(s: AudioSource) -> Seq<AudioCmd> {
    if s.playing {
        seq![AudioCmd::FadeOut { id: s.id }]
    } else {
        Seq::empty()
    }
}

/// What discarding the voice tells the collaborator: a hard stop, and only
/// if the voice was playing.
pub open spec fn spec_stop_cmds(s: AudioSource) -> Seq<AudioCmd> {
    if s.playing {
        seq![AudioCmd::Stop { id: s.id }]
    } else {
        Seq::empty()
    }
}

impl AudioSource {
    /// Create a fresh voice under the next free identifier, telling the
    /// collaborator to build its oscillator at the given frequency.
    pub fn get_source(next_id: &mut usize, frequency: u64, cmds: &mut Vec<AudioCmd>) -> (s:
        AudioSource)
        requires
            *old(next_id) < usize::MAX,
        ensures
            s == (AudioSource {
                id: *old(next_id),
                frequency,
                playing: false,
                played: false,
            }),
            *final(next_id) == *old(next_id) + 1,
            final(cmds)@ == old(cmds)@.push(
                AudioCmd::Create { id: *old(next_id), frequency },
            ),
            source_wf(s),
    {
        let id = *next_id;
        *next_id = *next_id + 1;
        cmds.push(AudioCmd::Create { id, frequency });
        AudioSource { id, frequency, playing: false, played: false }
    }

    /// Start playback: a no-op while playing; otherwise a one-time
    /// oscillator start on the first request, a gain resume afterwards.
    pub fn start(&mut self, cmds: &mut Vec<AudioCmd>)
        requires
            source_wf(*old(self)),
        ensures
            *final(self) == spec_started(*old(self)),
            final(cmds)@ == old(cmds)@ + spec_start_cmds(*old(self)),
            source_wf(*final(self)),
    {
        if !self.playing {
            self.playing = true;
            if !self.played {
                self.played = true;
                cmds.push(AudioCmd::Start { id: self.id });
            } else {
                cmds.push(AudioCmd::Resume { id: self.id });
            }
        }
        proof {
            assert(final(cmds)@ =~= old(cmds)@ + spec_start_cmds(*old(self)));
        }
    }

    /// Pause playback: a no-op while not playing; otherwise the voice's
    /// gain is ramped down to silence while the oscillator keeps running.
    pub fn pause(&mut self, cmds: &mut Vec<AudioCmd>)
        ensures
            *final(self) == spec_paused(*old(self)),
            final(cmds)@ == old(cmds)@ + spec_pause_cmds(*old(self)),
            source_wf(*old(self)) ==> source_wf(*final(self)),
    {
        if self.playing {
            self.playing = false;
            cmds.push(AudioCmd::FadeOut { id: self.id });
        }
        proof {
            assert(final(cmds)@ =~= old(cmds)@ + spec_pause_cmds(*old(self)));
        }
    }

    /// Discard the voice, stopping its oscillator if it is playing.  The
    /// voice is consumed: its handle is released exactly once.
    pub fn stop(self, cmds: &mut Vec<AudioCmd>)
        ensures
            final(cmds)@ == old(cmds)@ + spec_stop_cmds(self),
    {
        if self.playing {
            cmds.push(AudioCmd::Stop { id: self.id });
        }
        proof {
            assert(final(cmds)@ =~= old(cmds)@ + spec_stop_cmds(self));
        }
    }

    /// Push a new frequency to the oscillator.
    pub fn set_frequency(&mut self, f: u64, cmds: &mut Vec<AudioCmd>)
        ensures
            *final(self) == (AudioSource { frequency: f, ..*old(self) }),
            final(cmds)@ == old(cmds)@.push(
                AudioCmd::SetFrequency { id: old(self).id, frequency: f },
            ),
            source_wf(*old(self)) ==> source_wf(*final(self)),
    {
        self.frequency = f;
        cmds.push(AudioCmd::SetFrequency { id: self.id, frequency: f });
    }
}

/// A resonant air column: its base point, its length (millipixels, growing
/// upward on screen), whether the pipe is open at both ends, the UI
/// selection flag, and its oscillator voice.
#[derive(Clone, Copy, Debug, PartialEq, Eq, Structural)]
pub struct Tube {
    pub length: i64,
    pub from: Point,
    pub selected: bool,
    pub source: AudioSource,
    pub open: bool,
}

impl Tube {
    /// Well-formedness: the base point sits in the nonnegative pixel
    /// quadrant, the length is positive and bounded, the voice's frequency
    /// is exactly the fundamental of the tube's length and mode, and the
    /// voice state is consistent.
    pub open spec fn wf(self) -> bool {
        &&& 1 <= self.length <= COORD_LIMIT
        &&& 0 <= self.from.x <= COORD_LIMIT
        &&& 0 <= self.from.y <= COORD_LIMIT
        &&& self.source.frequency == spec_frequency(self.length as int, self.open)
        &&& source_wf(self.source)
    }

    /// The geometric extent: a vertical segment rising from the base.
    pub open spec fn spec_segment(self) -> Segment {
        Segment {
            from: self.from,
            to: Point { x: self.from.x, y: (self.from.y - self.length) as i64 },
        }
    }

    /// The hit region: the extent inflated to the fixed 20 px width.
    pub open spec fn spec_hit_rect(self) -> Rectangle {
        Rectangle {
            base_a: self.spec_segment().from,
            base_b: self.spec_segment().to,
            height: 20_000,
        }
    }

    /// The length in millipixels of the closed pipe that sounds at the
    /// given frequency (mHz).
    pub fn length(frequency: u64) -> (r: i64)
        requires
            112 <= frequency <= 111_475_000_000,
        ensures
            r == spec_length_for_frequency(frequency as int),
            1 <= r <= COORD_LIMIT,
    {
        length_for_frequency(frequency)
    }

    /// The tube's extent as a segment.
    pub fn segment(&self) -> (r: Segment)
        requires
            self.wf(),
        ensures
            r == self.spec_segment(),
    {
        Segment {
            from: self.from,
            to: Point { x: self.from.x, y: self.from.y - self.length },
        }
    }

    /// Hit test: is the point inside the tube's inflated rectangle?
    pub fn contains(&self, p: Point) -> (r: bool)
        requires
            self.wf(),
            p.valid(),
        ensures
            r == self.spec_hit_rect().spec_contains(p),
    {
        let rect = self.segment().to_rectangle(0);
        rect.contains(p)
    }

    /// Create a tube of the given length at the given base, in closed
    /// (stopped) mode, with a fresh voice at the closed fundamental.
    pub fn new(next_id: &mut usize, from: Point, length: i64, cmds: &mut Vec<AudioCmd>) -> (t:
        Tube)
        requires
            *old(next_id) < usize::MAX,
            1 <= length <= COORD_LIMIT,
            0 <= from.x <= COORD_LIMIT,
            0 <= from.y <= COORD_LIMIT,
        ensures
            t.length == length,
            t.from == from,
            !t.selected,
            !t.open,
            t.source.id == *old(next_id),
            t.source.frequency == spec_closed_frequency(length as int),
            !t.source.playing,
            !t.source.played,
            t.wf(),
            *final(next_id) == *old(next_id) + 1,
            final(cmds)@ == old(cmds)@.push(
                AudioCmd::Create {
                    id: *old(next_id),
                    frequency: spec_closed_frequency(length as int) as u64,
                },
            ),
    {
        let f = closed_frequency(length);
        let source = AudioSource::get_source(next_id, f, cmds);
        Tube { length, from, selected: false, source, open: false }
    }

    /// Select or deselect the tube.  When the scene's preference couples
    /// selection to playback, selecting also starts the voice and
    /// deselecting pauses it.
    pub fn set_selected(&mut self, stop_selected: bool, s: bool, cmds: &mut Vec<AudioCmd>)
        requires
            old(self).wf(),
        ensures
            final(self).length == old(self).length,
            final(self).from == old(self).from,
            final(self).open == old(self).open,
            final(self).selected == s,
            final(self).source == (if stop_selected {
                if s {
                    spec_started(old(self).source)
                } else {
                    spec_paused(old(self).source)
                }
            } else {
                old(self).source
            }),
            final(cmds)@ == old(cmds)@ + (if stop_selected {
                if s {
                    spec_start_cmds(old(self).source)
                } else {
                    spec_pause_cmds(old(self).source)
                }
            } else {
                Seq::<AudioCmd>::empty()
            }),
            final(self).wf(),
    {
        if s {
            self.selected = true;
            if stop_selected {
                self.source.start(cmds);
            }
        } else {
            self.selected = false;
            if stop_selected {
                self.source.pause(cmds);
            }
        }
        proof {
            if !stop_selected {
                assert(final(cmds)@ =~= old(cmds)@ + Seq::<AudioCmd>::empty());
            }
        }
    }

    /// Recompute the voice's frequency from the tube's current length and
    /// mode and push it to the oscillator.
    pub fn adjust_frequency(&mut self, cmds: &mut Vec<AudioCmd>)
        requires
            1 <= old(self).length <= COORD_LIMIT,
            source_wf(old(self).source),
        ensures
            final(self).length == old(self).length,
            final(self).from == old(self).from,
            final(self).open == old(self).open,
            final(self).selected == old(self).selected,
            final(self).source == (AudioSource {
                frequency: spec_frequency(old(self).length as int, old(self).open) as u64,
                ..old(self).source
            }),
            final(cmds)@ == old(cmds)@.push(
                AudioCmd::SetFrequency {
                    id: old(self).source.id,
                    frequency: spec_frequency(old(self).length as int, old(self).open) as u64,
                },
            ),
            final(self).wf() <==> (0 <= old(self).from.x <= COORD_LIMIT && 0 <= old(self).from.y
                <= COORD_LIMIT),
    {
        let f = frequency_of(self.length, self.open);
        self.source.set_frequency(f, cmds);
    }
}

} // verus!

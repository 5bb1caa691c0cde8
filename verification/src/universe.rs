//! The scene controller: the ordered collection of tubes, the two-click
//! placement state, and the resolution of clicks and keystrokes into
//! geometry hit-tests and state transitions.
//!
//! Every operation that talks to the audio collaborator appends commands to
//! the scene's outgoing buffer (see [`crate::tube::AudioCmd`]); the
//! surrounding application drains the buffer and performs them.

use vstd::prelude::*;

use crate::COORD_LIMIT;
use crate::acoustics::spec_closed_frequency;
use crate::acoustics::spec_frequency;
use crate::acoustics::spec_length_for_frequency;
use crate::geometry::Cell;
use crate::geometry::Point;
use crate::geometry::Segment;
use crate::geometry::isqrt;
use crate::geometry::lemma_isqrt_bounds;
use crate::tube::AudioCmd;
use crate::tube::AudioSource;
use crate::tube::Tube;
use crate::tube::spec_paused;
use crate::tube::spec_started;
use crate::tube::spec_start_cmds;
use crate::tube::spec_pause_cmds;
use crate::tube::spec_stop_cmds;

verus! {

/// The first click of a two-click segment placement: the grid cell that
/// was clicked and the exact pixel point inside it.  Keeping the pair in
/// one value makes "cell set but point missing" unrepresentable.
#[derive(Clone, Copy, Debug, PartialEq, Eq, Structural)]
pub struct Placement {
    pub cell: Cell,
    pub point: Point,
}

impl Placement {
    /// The point lies inside the cell on the 20 px grid, on a whole-pixel
    /// position.
    pub open spec fn wf(self) -> bool {
        &&& self.cell.valid()
        &&& 0 <= self.point.x <= 700_000_000
        &&& 0 <= self.point.y <= 700_000_000
        &&& self.point.x % 1_000 == 0
        &&& self.point.y % 1_000 == 0
        &&& 20_000 * self.cell.col <= self.point.x < 20_000 * self.cell.col + 20_000
        &&& 20_000 * self.cell.row <= self.point.y < 20_000 * self.cell.row + 20_000
    }
}

/// At most one tube of the sequence carries the selection flag.
pub open spec fn at_most_one_selected(tubes: Seq<Tube>) -> bool {
    forall|i: int, j: int|
        0 <= i < j < tubes.len() && (#[trigger] tubes[i]).selected ==> !(#[trigger] tubes[j]).selected
}

/// The index of the first selected tube at or after `i`, if any.
pub open spec fn first_selected_from(tubes: Seq<Tube>, i: nat) -> Option<int>
    decreases tubes.len() - i when i <= tubes.len()
{
    if i >= tubes.len() {
        None
    } else if tubes[i as int].selected {
        Some(i as int)
    } else {
        first_selected_from(tubes, i + 1)
    }
}

/// The index of the first selected tube, if any.
pub open spec fn first_selected(tubes: Seq<Tube>) -> Option<int> {
    first_selected_from(tubes, 0)
}

/// The index of the first tube whose hit region contains `p`, at or after
/// `i`, if any.
pub open spec fn first_hit_from(tubes: Seq<Tube>, p: Point, i: nat) -> Option<int>
    decreases tubes.len() - i when i <= tubes.len()
{
    if i >= tubes.len() {
        None
    } else if tubes[i as int].spec_hit_rect().spec_contains(p) {
        Some(i as int)
    } else {
        first_hit_from(tubes, p, i + 1)
    }
}

/// The index of the first tube whose hit region contains `p`, if any.
pub open spec fn first_hit(tubes: Seq<Tube>, p: Point) -> Option<int> {
    first_hit_from(tubes, p, 0)
}

/// The scene: grid dimensions, marked cells, the pending two-click
/// placement, the tubes in z-order, the selection/playback coupling
/// preference, the next free oscillator identifier, and the outgoing
/// audio command buffer.
pub struct Universe {
    pub width: usize,
    pub height: usize,
    pub points: Vec<Cell>,
    pub pending: Option<Placement>,
    pub tubes: Vec<Tube>,
    pub stop_selected: bool,
    pub next_source_id: usize,
    pub audio_out: Vec<AudioCmd>,
}

impl Universe {
    /// Scene invariant: every tube is well formed, at most one is
    /// selected, oscillator identifiers stay below the next free one, and
    /// a pending placement is consistent with its grid cell.
    pub open spec fn wf(self) -> bool {
        &&& forall|i: int|
            0 <= i < self.tubes@.len() ==> (#[trigger] self.tubes@[i]).wf()
        &&& at_most_one_selected(self.tubes@)
        &&& forall|i: int|
            0 <= i < self.tubes@.len() ==> (#[trigger] self.tubes@[i]).source.id
                < self.next_source_id
        &&& match self.pending {
            Some(p) => p.wf(),
            None => true,
        }
    }

    /// The frequency, in millihertz, each of the eight seeded tubes is
    /// tuned to: the diatonic scale from C4 to C5.
    pub open spec fn spec_seed_frequency(i: int) -> u64 {
        if i == 0 {
            261_626
        } else if i == 1 {
            293_665
        } else if i == 2 {
            329_628
        } else if i == 3 {
            349_228
        } else if i == 4 {
            391_995
        } else if i == 5 {
            440_000
        } else if i == 6 {
            493_883
        } else {
            523_251
        }
    }

    /// The `i`-th seeded tube: a closed pipe whose length realises the
    /// `i`-th scale frequency, based 750 px down, spaced 50 px apart.
    pub open spec fn spec_seed_tube(i: int) -> Tube {
        let len = spec_length_for_frequency(Self::spec_seed_frequency(i) as int);
        Tube {
            length: len as i64,
            from: Point { x: (50_000 * (i + 1)) as i64, y: 750_000 },
            selected: false,
            open: false,
            source: AudioSource {
                id: i as usize,
                frequency: spec_closed_frequency(len) as u64,
                playing: false,
                played: false,
            },
        }
    }

    fn seed_frequency(i: usize) -> (f: u64)
        requires
            i < 8,
        ensures
            f == Self::spec_seed_frequency(i as int),
            112 <= f <= 111_475_000_000,
    {
        if i == 0 {
            261_626
        } else if i == 1 {
            293_665
        } else if i == 2 {
            329_628
        } else if i == 3 {
            349_228
        } else if i == 4 {
            391_995
        } else if i == 5 {
            440_000
        } else if i == 6 {
            493_883
        } else {
            523_251
        }
    }

    /// A fresh scene: a 60 by 60 grid, no pending placement, and eight
    /// tubes seeded on the diatonic scale, selection coupled to playback.
    pub fn new() -> (u: Universe)
        ensures
            u.width == 60,
            u.height == 60,
            u.points@.len() == 0,
            u.pending is None,
            u.stop_selected == true,
            u.tubes@.len() == 8,
            forall|i: int| 0 <= i < 8 ==> u.tubes@[i] == Self::spec_seed_tube(i),
            u.next_source_id == 8,
            u.audio_out@.len() == 8,
            forall|i: int|
                0 <= i < 8 ==> u.audio_out@[i] == (AudioCmd::Create {
                    id: i as usize,
                    frequency: Self::spec_seed_tube(i).source.frequency,
                }),
            u.wf(),
    {
        let mut tubes: Vec<Tube> = Vec::new();
        let mut cmds: Vec<AudioCmd> = Vec::new();
        let mut next_id: usize = 0;
        let mut i: usize = 0;
        while i < 8
            invariant
                i <= 8,
                next_id == i,
                tubes@.len() == i,
                cmds@.len() == i,
                forall|k: int| 0 <= k < i ==> tubes@[k] == Self::spec_seed_tube(k),
                forall|k: int| 0 <= k < i ==> (#[trigger] tubes@[k]).wf(),
                forall|k: int| 0 <= k < i ==> !(#[trigger] tubes@[k]).selected,
                forall|k: int| 0 <= k < i ==> (#[trigger] tubes@[k]).source.id < next_id,
                forall|k: int|
                    0 <= k < i ==> cmds@[k] == (AudioCmd::Create {
                        id: k as usize,
                        frequency: Self::spec_seed_tube(k).source.frequency,
                    }),
            decreases 8 - i,
        {
            let f = Self::seed_frequency(i);
            let length = Tube::length(f);
            let x: i64 = 50_000 * (i as i64 + 1);
            let t = Tube::new(&mut next_id, Point { x, y: 750_000 }, length, &mut cmds);
            tubes.push(t);
            i = i + 1;
        }
        Universe {
            width: 60,
            height: 60,
            points: Vec::new(),
            pending: None,
            tubes,
            stop_selected: true,
            next_source_id: next_id,
            audio_out: cmds,
        }
    }

    /// Record the user preference that couples selection to playback.
    pub fn stop_selected(&mut self, checked: bool)
        ensures
            final(self).stop_selected == checked,
            final(self).width == old(self).width,
            final(self).height == old(self).height,
            final(self).points == old(self).points,
            final(self).pending == old(self).pending,
            final(self).tubes == old(self).tubes,
            final(self).next_source_id == old(self).next_source_id,
            final(self).audio_out == old(self).audio_out,
            old(self).wf() ==> final(self).wf(),
    {
        self.stop_selected = checked;
    }

    /// Drain the outgoing audio command buffer.  The caller performs the
    /// commands, in order, against the audio collaborator.
    pub fn take_audio_commands(&mut self) -> (cmds: Vec<AudioCmd>)
        ensures
            cmds@ == old(self).audio_out@,
            final(self).audio_out@.len() == 0,
            final(self).width == old(self).width,
            final(self).height == old(self).height,
            final(self).points == old(self).points,
            final(self).pending == old(self).pending,
            final(self).tubes == old(self).tubes,
            final(self).stop_selected == old(self).stop_selected,
            final(self).next_source_id == old(self).next_source_id,
            old(self).wf() ==> final(self).wf(),
    {
        let mut out: Vec<AudioCmd> = Vec::new();
        core::mem::swap(&mut out, &mut self.audio_out);
        out
    }

    /// The index of the first selected tube, if any.
    fn find_selected(&self) -> (r: Option<usize>)
        ensures
            match r {
                Some(idx) => first_selected(self.tubes@) == Some(idx as int) && idx
                    < self.tubes@.len(),
                None => first_selected(self.tubes@) is None,
            },
    {
        let n = self.tubes.len();
        let mut i: usize = 0;
        while i < n
            invariant
                i <= n,
                n == self.tubes@.len(),
                first_selected_from(self.tubes@, 0) == first_selected_from(self.tubes@, i as nat),
                forall|k: int| 0 <= k < i ==> !(#[trigger] self.tubes@[k]).selected,
            decreases n - i,
        {
            if self.tubes[i].selected {
                return Some(i);
            }
            proof {
                lemma_first_selected_step(self.tubes@, i as nat);
            }
            i = i + 1;
        }
        None
    }
}

/// Skipping an unselected tube does not change the first selected index.
proof fn lemma_first_selected_step(tubes: Seq<Tube>, i: nat)
    requires
        i < tubes.len(),
        !tubes[i as int].selected,
    ensures
        first_selected_from(tubes, i) == first_selected_from(tubes, i + 1),
{
}

} // verus!

verus! {

/// A recognized keyboard command.
#[derive(Clone, Copy, Debug, PartialEq, Eq, Structural)]
pub enum KeyCommand {
    /// `d`: delete the selected tube and stop its voice.
    Delete,
    /// `o`: toggle the selected tube between open and stopped pipe.
    ToggleOpen,
    /// `p`: toggle playback of the selected tube's voice.
    TogglePlay,
    /// `ArrowUp`: lengthen the selected tube.
    Up,
    /// `ArrowDown`: shorten the selected tube (clamped at 10 px).
    Down,
    /// `ArrowRight`: move the selection to the next tube, wrapping.
    Right,
    /// `ArrowLeft`: move the selection to the previous tube, wrapping.
    Left,
    /// Anything else: unhandled.
    Other,
}

/// Which command a key name stands for.
pub open spec fn spec_key_of(s: Seq<char>) -> KeyCommand {
    if s == "d"@ {
        KeyCommand::Delete
    } else if s == "o"@ {
        KeyCommand::ToggleOpen
    } else if s == "p"@ {
        KeyCommand::TogglePlay
    } else if s == "ArrowUp"@ {
        KeyCommand::Up
    } else if s == "ArrowDown"@ {
        KeyCommand::Down
    } else if s == "ArrowRight"@ {
        KeyCommand::Right
    } else if s == "ArrowLeft"@ {
        KeyCommand::Left
    } else {
        KeyCommand::Other
    }
}

/// Parse a key name.
fn key_of(key: &str) -> (k: KeyCommand)
    ensures
        k == spec_key_of(key@),
{
    let ks = String::from_str(key);
    if ks == String::from_str("d") {
        KeyCommand::Delete
    } else if ks == String::from_str("o") {
        KeyCommand::ToggleOpen
    } else if ks == String::from_str("p") {
        KeyCommand::TogglePlay
    } else if ks == String::from_str("ArrowUp") {
        KeyCommand::Up
    } else if ks == String::from_str("ArrowDown") {
        KeyCommand::Down
    } else if ks == String::from_str("ArrowRight") {
        KeyCommand::Right
    } else if ks == String::from_str("ArrowLeft") {
        KeyCommand::Left
    } else {
        KeyCommand::Other
    }
}

/// A tube after a selection change, with the optional playback coupling.
pub open spec fn spec_tube_selected(t: Tube, stop_sel: bool, s: bool) -> Tube {
    Tube {
        selected: s,
        source: if stop_sel {
            if s {
                spec_started(t.source)
            } else {
                spec_paused(t.source)
            }
        } else {
            t.source
        },
        ..t
    }
}

/// The audio commands a selection change emits.
pub open spec fn spec_select_cmds(t: Tube, stop_sel: bool, s: bool) -> Seq<AudioCmd> {
    if stop_sel {
        if s {
            spec_start_cmds(t.source)
        } else {
            spec_pause_cmds(t.source)
        }
    } else {
        Seq::<AudioCmd>::empty()
    }
}

/// A tube with its pipe mode flipped and its frequency recomputed from the
/// unchanged length.
pub open spec fn spec_toggled_open(t: Tube) -> Tube {
    Tube {
        open: !t.open,
        source: AudioSource {
            frequency: spec_frequency(t.length as int, !t.open) as u64,
            ..t.source
        },
        ..t
    }
}

/// A tube with playback toggled.
pub open spec fn spec_play_toggled(t: Tube) -> Tube {
    Tube {
        source: if t.source.playing {
            spec_paused(t.source)
        } else {
            spec_started(t.source)
        },
        ..t
    }
}

/// The audio commands a playback toggle emits.
pub open spec fn spec_play_toggle_cmds(t: Tube) -> Seq<AudioCmd> {
    if t.source.playing {
        spec_pause_cmds(t.source)
    } else {
        spec_start_cmds(t.source)
    }
}

/// The length step of an arrow key: 20 px with shift held, 1 px without.
pub open spec fn spec_step(shift: bool) -> int {
    if shift {
        20_000
    } else {
        1_000
    }
}

/// The length after `ArrowUp`: one step longer, saturated at the kernel's
/// coordinate bound.
pub open spec fn spec_len_up(len: int, shift: bool) -> int {
    if len + spec_step(shift) > COORD_LIMIT {
        COORD_LIMIT as int
    } else {
        len + spec_step(shift)
    }
}

/// The length after `ArrowDown`: one step shorter, clamped at 10 px.
pub open spec fn spec_len_down(len: int, shift: bool) -> int {
    if len - spec_step(shift) < 10_000 {
        10_000
    } else {
        len - spec_step(shift)
    }
}

/// A tube resized to `newlen`, with its frequency recomputed.
pub open spec fn spec_resized(t: Tube, newlen: int) -> Tube {
    Tube {
        length: newlen as i64,
        source: AudioSource {
            frequency: spec_frequency(newlen, t.open) as u64,
            ..t.source
        },
        ..t
    }
}

/// A `first_selected_from` answer pins down the whole prefix: everything
/// before the answer is unselected, and the answer itself is selected.
pub proof fn lemma_first_selected_props(tubes: Seq<Tube>, i: nat, j: int)
    requires
        i <= tubes.len(),
        first_selected_from(tubes, i) == Some(j),
    ensures
        i <= j < tubes.len(),
        tubes[j].selected,
        forall|k: int| i <= k < j ==> !(#[trigger] tubes[k]).selected,
    decreases tubes.len() - i,
{
    if i < tubes.len() && !tubes[i as int].selected {
        lemma_first_selected_props(tubes, i + 1, j);
    }
}

/// With at most one selected tube, the first selected one is the only one.
pub proof fn lemma_selected_unique(tubes: Seq<Tube>, j: int)
    requires
        at_most_one_selected(tubes),
        first_selected(tubes) == Some(j),
    ensures
        0 <= j < tubes.len(),
        tubes[j].selected,
        forall|k: int| 0 <= k < tubes.len() && k != j ==> !(#[trigger] tubes[k]).selected,
{
    lemma_first_selected_props(tubes, 0, j);
    assert forall|k: int| 0 <= k < tubes.len() && k != j implies !(#[trigger] tubes[k]).selected by {
        if k > j && tubes[k].selected {
            assert(!tubes[k].selected);
        }
    }
}

impl Universe {
    /// Change the selection flag of one tube, honoring the playback
    /// coupling preference.
    fn select(&mut self, idx: usize, v: bool)
        requires
            idx < old(self).tubes@.len(),
            old(self).tubes@[idx as int].wf(),
        ensures
            final(self).tubes@ == old(self).tubes@.update(
                idx as int,
                spec_tube_selected(old(self).tubes@[idx as int], old(self).stop_selected, v),
            ),
            final(self).audio_out@ == old(self).audio_out@ + spec_select_cmds(
                old(self).tubes@[idx as int],
                old(self).stop_selected,
                v,
            ),
            final(self).tubes@[idx as int].wf(),
            final(self).width == old(self).width,
            final(self).height == old(self).height,
            final(self).points == old(self).points,
            final(self).pending == old(self).pending,
            final(self).stop_selected == old(self).stop_selected,
            final(self).next_source_id == old(self).next_source_id,
    {
        let mut t = self.tubes[idx];
        t.set_selected(self.stop_selected, v, &mut self.audio_out);
        self.tubes[idx] = t;
    }

    /// Dispatch a key press to the selected tube.  Returns whether the key
    /// was handled; with no tube selected every key is unhandled and the
    /// scene is untouched.
    pub fn keypress(&mut self, key: &str, shift_key: bool) -> (r: bool)
        requires
            old(self).wf(),
        ensures
            final(self).wf(),
            final(self).width == old(self).width,
            final(self).height == old(self).height,
            final(self).points == old(self).points,
            final(self).pending == old(self).pending,
            final(self).stop_selected == old(self).stop_selected,
            final(self).next_source_id == old(self).next_source_id,
            ({
                let k = spec_key_of(key@);
                let tubes = old(self).tubes@;
                let ss = old(self).stop_selected;
                let cmds = old(self).audio_out@;
                match first_selected(tubes) {
                    None => !r && final(self).tubes@ == tubes && final(self).audio_out@ == cmds,
                    Some(i) => {
                        &&& (k is Delete ==> r && final(self).tubes@ == tubes.remove(i)
                            && final(self).audio_out@ == cmds + spec_stop_cmds(tubes[i].source))
                        &&& (k is ToggleOpen ==> r && final(self).tubes@ == tubes.update(
                            i,
                            spec_toggled_open(tubes[i]),
                        ) && final(self).audio_out@ == cmds.push(
                            AudioCmd::SetFrequency {
                                id: tubes[i].source.id,
                                frequency: spec_frequency(tubes[i].length as int, !tubes[i].open)
                                    as u64,
                            },
                        ))
                        &&& (k is TogglePlay ==> r && final(self).tubes@ == tubes.update(
                            i,
                            spec_play_toggled(tubes[i]),
                        ) && final(self).audio_out@ == cmds + spec_play_toggle_cmds(tubes[i]))
                        &&& (k is Up ==> r && final(self).tubes@ == tubes.update(
                            i,
                            spec_resized(tubes[i], spec_len_up(tubes[i].length as int, shift_key)),
                        ) && final(self).audio_out@ == cmds.push(
                            AudioCmd::SetFrequency {
                                id: tubes[i].source.id,
                                frequency: spec_frequency(
                                    spec_len_up(tubes[i].length as int, shift_key),
                                    tubes[i].open,
                                ) as u64,
                            },
                        ))
                        &&& (k is Down ==> r && final(self).tubes@ == tubes.update(
                            i,
                            spec_resized(
                                tubes[i],
                                spec_len_down(tubes[i].length as int, shift_key),
                            ),
                        ) && final(self).audio_out@ == cmds.push(
                            AudioCmd::SetFrequency {
                                id: tubes[i].source.id,
                                frequency: spec_frequency(
                                    spec_len_down(tubes[i].length as int, shift_key),
                                    tubes[i].open,
                                ) as u64,
                            },
                        ))
                        &&& (k is Right ==> {
                            let j = (i + 1) % (tubes.len() as int);
                            let t1 = tubes.update(i, spec_tube_selected(tubes[i], ss, false));
                            &&& r
                            &&& final(self).tubes@ == t1.update(
                                j,
                                spec_tube_selected(t1[j], ss, true),
                            )
                            &&& final(self).audio_out@ == cmds + spec_select_cmds(
                                tubes[i],
                                ss,
                                false,
                            ) + spec_select_cmds(t1[j], ss, true)
                        })
                        &&& (k is Left ==> {
                            let j = if i == 0 {
                                tubes.len() - 1
                            } else {
                                i - 1
                            };
                            let t1 = tubes.update(i, spec_tube_selected(tubes[i], ss, false));
                            &&& r
                            &&& final(self).tubes@ == t1.update(
                                j,
                                spec_tube_selected(t1[j], ss, true),
                            )
                            &&& final(self).audio_out@ == cmds + spec_select_cmds(
                                tubes[i],
                                ss,
                                false,
                            ) + spec_select_cmds(t1[j], ss, true)
                        })
                        &&& (k is Other ==> !r && final(self).tubes@ == tubes
                            && final(self).audio_out@ == cmds)
                    },
                }
            }),
    {
        let sel = self.find_selected();
        match sel {
            None => false,
            Some(idx) => {
                proof {
                    lemma_selected_unique(self.tubes@, idx as int);
                }
                let k = key_of(key);
                match k {
                    KeyCommand::Delete => {
                        let tube = self.tubes.remove(idx);
                        tube.source.stop(&mut self.audio_out);
                        proof {
                            assert forall|a: int|
                                0 <= a < final(self).tubes@.len() implies (#[trigger] final(self).tubes@[a]).wf() by {
                                if a < idx {
                                    assert(final(self).tubes@[a] == old(self).tubes@[a]);
                                } else {
                                    assert(final(self).tubes@[a] == old(self).tubes@[a + 1]);
                                }
                            }
                            assert forall|a: int|
                                0 <= a < final(self).tubes@.len() implies (#[trigger] final(self).tubes@[a]).source.id < final(self).next_source_id by {
                                if a < idx {
                                    assert(final(self).tubes@[a] == old(self).tubes@[a]);
                                } else {
                                    assert(final(self).tubes@[a] == old(self).tubes@[a + 1]);
                                }
                            }
                            assert forall|a: int, b: int|
                                0 <= a < b < final(self).tubes@.len() && (#[trigger] final(self).tubes@[a]).selected implies !(#[trigger] final(self).tubes@[b]).selected by {
                                let oa = if a < idx {
                                    a
                                } else {
                                    a + 1
                                };
                                let ob = if b < idx {
                                    b
                                } else {
                                    b + 1
                                };
                                assert(final(self).tubes@[a] == old(self).tubes@[oa]);
                                assert(final(self).tubes@[b] == old(self).tubes@[ob]);
                            }
                        }
                        true
                    },
                    KeyCommand::ToggleOpen => {
                        let mut t = self.tubes[idx];
                        t.open = !t.open;
                        t.adjust_frequency(&mut self.audio_out);
                        self.tubes[idx] = t;
                        proof {
                            assert(final(self).tubes@ =~= old(self).tubes@.update(
                                idx as int,
                                spec_toggled_open(old(self).tubes@[idx as int]),
                            ));
                        }
                        true
                    },
                    KeyCommand::TogglePlay => {
                        let mut t = self.tubes[idx];
                        if t.source.playing {
                            t.source.pause(&mut self.audio_out);
                        } else {
                            t.source.start(&mut self.audio_out);
                        }
                        self.tubes[idx] = t;
                        proof {
                            assert(final(self).tubes@ =~= old(self).tubes@.update(
                                idx as int,
                                spec_play_toggled(old(self).tubes@[idx as int]),
                            ));
                        }
                        true
                    },
                    KeyCommand::Up => {
                        let step: i64 = if shift_key {
                            20_000
                        } else {
                            1_000
                        };
                        let mut t = self.tubes[idx];
                        if t.length > COORD_LIMIT - step {
                            t.length = COORD_LIMIT;
                        } else {
                            t.length = t.length + step;
                        }
                        t.adjust_frequency(&mut self.audio_out);
                        self.tubes[idx] = t;
                        proof {
                            assert(final(self).tubes@ =~= old(self).tubes@.update(
                                idx as int,
                                spec_resized(
                                    old(self).tubes@[idx as int],
                                    spec_len_up(old(self).tubes@[idx as int].length as int, shift_key),
                                ),
                            ));
                        }
                        true
                    },
                    KeyCommand::Down => {
                        let step: i64 = if shift_key {
                            20_000
                        } else {
                            1_000
                        };
                        let mut t = self.tubes[idx];
                        t.length = t.length - step;
                        if t.length < 10_000 {
                            t.length = 10_000;
                        }
                        t.adjust_frequency(&mut self.audio_out);
                        self.tubes[idx] = t;
                        proof {
                            assert(final(self).tubes@ =~= old(self).tubes@.update(
                                idx as int,
                                spec_resized(
                                    old(self).tubes@[idx as int],
                                    spec_len_down(
                                        old(self).tubes@[idx as int].length as int,
                                        shift_key,
                                    ),
                                ),
                            ));
                        }
                        true
                    },
                    KeyCommand::Right => {
                        let l = self.tubes.len();
                        self.select(idx, false);
                        self.select((idx + 1) % l, true);
                        true
                    },
                    KeyCommand::Left => {
                        self.select(idx, false);
                        if idx == 0 {
                            let l = self.tubes.len();
                            self.select(l - 1, true);
                        } else {
                            self.select(idx - 1, true);
                        }
                        true
                    },
                    KeyCommand::Other => false,
                }
            },
        }
    }
}

} // verus!

verus! {

/// Every tube of the sequence, deselected.
pub open spec fn spec_deselect_all(tubes: Seq<Tube>, ss: bool) -> Seq<Tube> {
    tubes.map_values(|t: Tube| spec_tube_selected(t, ss, false))
}

/// The audio commands emitted while deselecting the first `i` tubes in
/// order.
pub open spec fn spec_deselect_cmds_upto(tubes: Seq<Tube>, ss: bool, i: nat) -> Seq<AudioCmd>
    decreases i,
{
    if i == 0 {
        Seq::<AudioCmd>::empty()
    } else {
        spec_deselect_cmds_upto(tubes, ss, (i - 1) as nat) + spec_select_cmds(
            tubes[i - 1],
            ss,
            false,
        )
    }
}

/// The audio commands emitted while deselecting every tube in order.
pub open spec fn spec_deselect_all_cmds(tubes: Seq<Tube>, ss: bool) -> Seq<AudioCmd> {
    spec_deselect_cmds_upto(tubes, ss, tubes.len())
}

/// The tube a finished two-click placement creates: a closed pipe of the
/// given length at the given base, with a fresh unstarted voice.
pub open spec fn spec_new_tube(id: usize, base: Point, len: int) -> Tube {
    Tube {
        length: len as i64,
        from: base,
        selected: false,
        open: false,
        source: AudioSource {
            id,
            frequency: spec_closed_frequency(len) as u64,
            playing: false,
            played: false,
        },
    }
}

/// Skipping a tube that misses the point does not change the first hit.
proof fn lemma_first_hit_step(tubes: Seq<Tube>, p: Point, i: nat)
    requires
        i < tubes.len(),
        !tubes[i as int].spec_hit_rect().spec_contains(p),
    ensures
        first_hit_from(tubes, p, i) == first_hit_from(tubes, p, i + 1),
{
}

impl Universe {
    /// The index of the first tube whose hit region contains `p`, if any.
    fn find_hit(&self, p: Point) -> (r: Option<usize>)
        requires
            self.wf(),
            p.valid(),
        ensures
            match r {
                Some(h) => first_hit(self.tubes@, p) == Some(h as int) && h < self.tubes@.len(),
                None => first_hit(self.tubes@, p) is None,
            },
    {
        let n = self.tubes.len();
        let mut i: usize = 0;
        while i < n
            invariant
                i <= n,
                n == self.tubes@.len(),
                self.wf(),
                p.valid(),
                first_hit_from(self.tubes@, p, 0) == first_hit_from(self.tubes@, p, i as nat),
            decreases n - i,
        {
            if self.tubes[i].contains(p) {
                return Some(i);
            }
            proof {
                lemma_first_hit_step(self.tubes@, p, i as nat);
            }
            i = i + 1;
        }
        None
    }

    /// Resolve a pointer click at pixel `(x, y)` inside grid cell
    /// `(row, col)`.  A click on a tube's hit region moves the selection
    /// there.  A click on empty ground starts or finishes a two-click
    /// placement: the first click records the cell and point; a second
    /// click in a different cell builds a tube between the two points,
    /// anchored at the lower one; a second click in the same cell cancels
    /// the placement.
    pub fn clicked(&mut self, row: usize, col: usize, x: usize, y: usize) -> (r: bool)
        requires
            old(self).wf(),
            old(self).next_source_id < usize::MAX,
            x <= 700_000,
            y <= 700_000,
            row == y / 20,
            col == x / 20,
        ensures
            final(self).wf(),
            r == true,
            final(self).width == old(self).width,
            final(self).height == old(self).height,
            final(self).points == old(self).points,
            final(self).stop_selected == old(self).stop_selected,
            ({
                let pt = Point { x: (1_000 * x) as i64, y: (1_000 * y) as i64 };
                let tubes = old(self).tubes@;
                let ss = old(self).stop_selected;
                let cmds = old(self).audio_out@;
                match first_hit(tubes, pt) {
                    Some(h) => {
                        let t1 = spec_deselect_all(tubes, ss);
                        &&& final(self).tubes@ == t1.update(
                            h,
                            spec_tube_selected(t1[h], ss, true),
                        )
                        &&& final(self).audio_out@ == cmds + spec_deselect_all_cmds(tubes, ss)
                            + spec_select_cmds(t1[h], ss, true)
                        &&& final(self).pending == old(self).pending
                        &&& final(self).next_source_id == old(self).next_source_id
                    },
                    None => match old(self).pending {
                        Some(p) => {
                            &&& final(self).pending is None
                            &&& (p.cell == (Cell { row, col }) ==> final(self).tubes@ == tubes
                                && final(self).audio_out@ == cmds && final(self).next_source_id
                                == old(self).next_source_id)
                            &&& (p.cell != (Cell { row, col }) ==> {
                                let base = if p.point.y > pt.y {
                                    p.point
                                } else {
                                    pt
                                };
                                let len = isqrt(p.point.dist_sq(pt) as nat) as int;
                                &&& final(self).tubes@ == tubes.push(
                                    spec_new_tube(old(self).next_source_id, base, len),
                                )
                                &&& final(self).audio_out@ == cmds.push(
                                    AudioCmd::Create {
                                        id: old(self).next_source_id,
                                        frequency: spec_closed_frequency(len) as u64,
                                    },
                                )
                                &&& final(self).next_source_id == old(self).next_source_id + 1
                            })
                        },
                        None => {
                            &&& final(self).pending == Some(
                                Placement { cell: Cell { row, col }, point: pt },
                            )
                            &&& final(self).tubes@ == tubes
                            &&& final(self).audio_out@ == cmds
                            &&& final(self).next_source_id == old(self).next_source_id
                        },
                    },
                }
            }),
    {
        let pt = Point { x: 1_000 * (x as i64), y: 1_000 * (y as i64) };
        let hit = self.find_hit(pt);
        match hit {
            Some(h) => {
                let ghost tubes0 = self.tubes@;
                let ghost cmds0 = self.audio_out@;
                let ghost ss = self.stop_selected;
                let n = self.tubes.len();
                let mut i: usize = 0;
                while i < n
                    invariant
                        i <= n,
                        n == self.tubes@.len(),
                        tubes0.len() == n,
                        self.stop_selected == ss,
                        forall|k: int|
                            0 <= k < i ==> self.tubes@[k] == spec_tube_selected(
                                #[trigger] tubes0[k],
                                ss,
                                false,
                            ),
                        forall|k: int| i <= k < n ==> self.tubes@[k] == #[trigger] tubes0[k],
                        forall|k: int| 0 <= k < n ==> (#[trigger] tubes0[k]).wf(),
                        forall|k: int| 0 <= k < n ==> (#[trigger] self.tubes@[k]).wf(),
                        self.audio_out@ == cmds0 + spec_deselect_cmds_upto(tubes0, ss, i as nat),
                        self.width == old(self).width,
                        self.height == old(self).height,
                        self.points == old(self).points,
                        self.pending == old(self).pending,
                        self.next_source_id == old(self).next_source_id,
                    decreases n - i,
                {
                    proof {
                        assert(self.audio_out@ + spec_select_cmds(tubes0[i as int], ss, false)
                            =~= cmds0 + spec_deselect_cmds_upto(tubes0, ss, (i + 1) as nat));
                    }
                    self.select(i, false);
                    i = i + 1;
                }
                proof {
                    assert(self.tubes@ =~= spec_deselect_all(tubes0, ss));
                    assert(self.audio_out@ == cmds0 + spec_deselect_all_cmds(tubes0, ss));
                }
                self.select(h, true);
                proof {
                    assert forall|a: int, b: int|
                        0 <= a < b < final(self).tubes@.len() && (#[trigger] final(self).tubes@[a]).selected implies !(#[trigger] final(self).tubes@[b]).selected by {}
                }
                true
            },
            None => {
                let cell = Cell::new(row, col);
                let pend = self.pending;
                match pend {
                    Some(p) => {
                        self.pending = None;
                        if !(p.cell == cell) {
                            let side = Segment::new(p.point, pt);
                            let base = if p.point.y > pt.y {
                                p.point
                            } else {
                                pt
                            };
                            let len = side.length();
                            proof {
                                let px = p.point.x as int;
                                let py = p.point.y as int;
                                let qx = pt.x as int;
                                let qy = pt.y as int;
                                if px == qx && py == qy {
                                    assert(p.cell.col == col);
                                    assert(p.cell.row == row);
                                }
                                let dsq = p.point.dist_sq(pt);
                                assert(dsq >= 1 && dsq <= 980_000_000_000_000_000)
                                    by (nonlinear_arith)
                                    requires
                                        dsq == (px - qx) * (px - qx) + (py - qy) * (py - qy),
                                        !(px == qx && py == qy),
                                        0 <= px <= 700_000_000,
                                        0 <= py <= 700_000_000,
                                        0 <= qx <= 700_000_000,
                                        0 <= qy <= 700_000_000,
                                ;
                                lemma_isqrt_bounds(dsq as nat);
                                assert(1 <= isqrt(dsq as nat) < 990_000_000) by (nonlinear_arith)
                                    requires
                                        isqrt(dsq as nat) * isqrt(dsq as nat) <= dsq,
                                        dsq < (isqrt(dsq as nat) + 1) * (isqrt(dsq as nat) + 1),
                                        1 <= dsq <= 980_000_000_000_000_000,
                                ;
                            }
                            let t = Tube::new(&mut self.next_source_id, base, len, &mut self.audio_out);
                            self.tubes.push(t);
                        }
                        true
                    },
                    None => {
                        self.pending = Some(Placement { cell, point: pt });
                        true
                    },
                }
            },
        }
    }
}

} // verus!

verus! {

/// Toggling the pipe mode twice restores the tube exactly: the length is
/// never touched, and the frequency, being a pure function of length and
/// mode, returns to its original value.
pub proof fn lemma_open_toggle_restores(t: Tube)
    requires
        t.wf(),
    ensures
        spec_toggled_open(spec_toggled_open(t)) == t,
{
}

/// The selection invariant, as a stated law: in a well-formed scene at
/// most one tube is selected — and every scene operation keeps the scene
/// well formed.
pub proof fn lemma_selection_invariant(u: Universe)
    requires
        u.wf(),
    ensures
        at_most_one_selected(u.tubes@),
{
}

/// The length after `k` presses of `ArrowDown`.
pub open spec fn spec_down_iter(len: int, shift: bool, k: nat) -> int
    decreases k,
{
    if k == 0 {
        len
    } else {
        spec_len_down(spec_down_iter(len, shift, (k - 1) as nat), shift)
    }
}

/// Repeated `ArrowDown` drives the length to exactly 10 px and never
/// below: after `k` presses the length is `len - k * step`, floored at
/// exactly 10 000 millipixels.
pub proof fn lemma_arrow_down_clamps(len: int, shift: bool, k: nat)
    requires
        len >= 10_000,
    ensures
        spec_down_iter(len, shift, k) == (if len - k * spec_step(shift) < 10_000 {
            10_000int
        } else {
            len - k * spec_step(shift)
        }),
        spec_down_iter(len, shift, k) >= 10_000,
    decreases k,
{
    let st = spec_step(shift);
    if k > 0 {
        lemma_arrow_down_clamps(len, shift, (k - 1) as nat);
        assert(k * st == (k - 1) * st + st) by (nonlinear_arith);
        assert((k - 1) * st >= 0) by (nonlinear_arith)
            requires
                k >= 1,
                st > 0,
        ;
    } else {
        assert(k * st == 0) by (nonlinear_arith)
            requires
                k == 0,
        ;
    }
}

} // verus!

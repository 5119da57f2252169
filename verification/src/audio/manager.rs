//! The playback manager: which state the player is in, which audio it holds, and
//! where in that audio it stands.
//!
//! The sink that makes the sound is driven from outside. Each transition here says
//! what must be done to the sink (`SinkAction`); times are microseconds on a clock
//! that the caller reads and hands in.

use vstd::prelude::*;

verus! {

/// Bytes of audio per second of playback that the duration estimate assumes
/// (44100 samples per second, two channels, two bytes per sample).
pub const BYTES_PER_SECOND: u64 = 176400;

/// The state of the player.
#[derive(Debug, Clone, Copy, PartialEq, Eq, Structural)]
pub enum PlaybackState {
    Idle,
    Playing,
    Paused,
    Stopped,
}

/// What the caller must do to the current sink after a transition.
#[derive(Debug, Clone, Copy, PartialEq, Eq, Structural)]
pub enum SinkAction {
    /// Leave the sink alone (there may be none).
    Keep,
    /// Stop the current sink.
    Stop,
    /// Pause the current sink.
    Pause,
    /// Let the current sink play again.
    Resume,
}

/// Where playback stands, in microseconds, and how far along it is, in hundredths
/// of a percent (0 through 10000).
#[derive(Debug, Clone, Copy, PartialEq, Eq, Structural)]
pub struct PlaybackProgress {
    pub current_us: u64,
    pub total_us: u64,
    pub percent_hundredths: u64,
}

/// The abstract state of a manager.
pub ghost struct ManagerView {
    pub has_sink: bool,
    pub state: PlaybackState,
    pub audio: Option<Seq<u8>>,
    pub play_start_us: Option<u64>,
    pub paused_position_us: Option<u64>,
    pub total_duration_us: Option<u64>,
}

/// The playback manager's state.
pub struct AudioManagerState {
    has_sink: bool,
    state: PlaybackState,
    current_audio_data: Option<Vec<u8>>,
    play_start_us: Option<u64>,
    paused_position_us: Option<u64>,
    total_duration_us: Option<u64>,
}

/// The estimated length, in microseconds, of `len` bytes of audio, rounded down and
/// capped at `u64::MAX`.
pub open spec fn estimated_duration_us(len: nat) -> nat {
    let d = len * 2500 / 441;
    if d > u64::MAX { u64::MAX as nat } else { d }
}

/// The smaller of two naturals.
pub open spec fn min_nat(a: nat, b: nat) -> nat {
    if a <= b { a } else { b }
}

/// Time since playback last started, or zero where it has no start (a clock that
/// reads earlier than the start also counts as zero).
pub open spec fn elapsed_us(v: ManagerView, now_us: u64) -> nat {
    match v.play_start_us {
        Some(start) => if now_us >= start { (now_us - start) as nat } else { 0 },
        None => 0,
    }
}

/// The playback position at `now_us`: while playing, the position saved at the last
/// pause plus the time since playback last started; while paused, the saved
/// position; otherwise zero. Capped at `u64::MAX`.
pub open spec fn position_us(v: ManagerView, now_us: u64) -> nat {
    match v.state {
        PlaybackState::Playing => {
            let saved: nat = match v.paused_position_us {
                Some(p) => p as nat,
                None => 0,
            };
            min_nat(saved + elapsed_us(v, now_us), u64::MAX as nat)
        },
        PlaybackState::Paused => match v.paused_position_us {
            Some(p) => p as nat,
            None => 0,
        },
        _ => 0,
    }
}

/// The progress report at `now_us`: none unless playing or paused with audio of
/// positive estimated length, else the position, the total and the share of the total reached, in
/// hundredths of a percent, at most 10000.
pub open spec fn progress_at(v: ManagerView, now_us: u64) -> Option<PlaybackProgress> {
    let total: nat = match v.total_duration_us {
        Some(t) => t as nat,
        None => 0,
    };
    if !(v.state == PlaybackState::Playing || v.state == PlaybackState::Paused) || total == 0 {
        None
    } else {
        let current = position_us(v, now_us);
        Some(
            PlaybackProgress {
                current_us: current as u64,
                total_us: total as u64,
                percent_hundredths: min_nat(current * 10000 / total, 10000) as u64,
            },
        )
    }
}

/// What every manager satisfies: a sink exists exactly while playing or paused, a
/// playing manager knows when it started, a paused one where it stopped, and audio
/// and its estimated duration are known together.
pub open spec fn manager_invariant(v: ManagerView) -> bool {
    &&& v.has_sink <==> (v.state == PlaybackState::Playing || v.state == PlaybackState::Paused)
    &&& v.state == PlaybackState::Playing ==> v.play_start_us is Some
    &&& v.state == PlaybackState::Paused ==> v.paused_position_us is Some
    &&& v.has_sink ==> v.audio is Some
    &&& v.audio is Some <==> v.total_duration_us is Some
    &&& v.audio is Some ==> v.total_duration_us.unwrap() as nat == estimated_duration_us(
        v.audio.unwrap().len(),
    )
}

/// The manager as it starts: idle, with no sink and nothing loaded.
pub open spec fn initial_view() -> ManagerView {
    ManagerView {
        has_sink: false,
        state: PlaybackState::Idle,
        audio: None,
        play_start_us: None,
        paused_position_us: None,
        total_duration_us: None,
    }
}

/// The manager after new audio started playing on a fresh sink at `now_us`: it
/// plays from the start of that audio, and no earlier pause position is kept.
pub open spec fn after_play(v: ManagerView, audio: Seq<u8>, now_us: u64) -> ManagerView {
    ManagerView {
        has_sink: true,
        state: PlaybackState::Playing,
        audio: Some(audio),
        play_start_us: Some(now_us),
        paused_position_us: None,
        total_duration_us: Some(estimated_duration_us(audio.len()) as u64),
    }
}

/// The manager after a pause at `now_us`: with a sink it is paused and saves its
/// position at `now_us` (which, for a manager already paused, is the position it had
/// saved); without one nothing changes.
pub open spec fn after_pause(v: ManagerView, now_us: u64) -> ManagerView {
    if v.has_sink {
        ManagerView {
            state: PlaybackState::Paused,
            paused_position_us: Some(position_us(v, now_us) as u64),
            ..v
        }
    } else {
        v
    }
}

/// The manager after a resume at `now_us`: with a sink it plays from `now_us` on;
/// without one nothing changes.
pub open spec fn after_resume(v: ManagerView, now_us: u64) -> ManagerView {
    if v.has_sink {
        ManagerView { state: PlaybackState::Playing, play_start_us: Some(now_us), ..v }
    } else {
        v
    }
}

/// The manager after the position was set to `position_us` at `now_us`: with a sink
/// it stands at `position_us` from then on (a playing manager goes on from there);
/// without one nothing changes. The sink itself cannot seek, so only the recorded
/// position moves.
pub open spec fn after_seek(v: ManagerView, position_us: u64, now_us: u64) -> ManagerView {
    if v.has_sink && v.state == PlaybackState::Playing {
        ManagerView {
            paused_position_us: Some(position_us),
            play_start_us: Some(now_us),
            ..v
        }
    } else if v.has_sink {
        ManagerView { paused_position_us: Some(position_us), ..v }
    } else {
        v
    }
}

/// The manager after a stop: no sink, stopped, no start time and no saved position;
/// the audio and its duration stay.
pub open spec fn after_stop(v: ManagerView) -> ManagerView {
    ManagerView {
        has_sink: false,
        state: PlaybackState::Stopped,
        play_start_us: None,
        paused_position_us: None,
        ..v
    }
}

impl View for AudioManagerState {
    type V = ManagerView;

    closed spec fn view(&self) -> ManagerView {
        ManagerView {
            has_sink: self.has_sink,
            state: self.state,
            audio: match self.current_audio_data {
                Some(a) => Some(a@),
                None => None,
            },
            play_start_us: self.play_start_us,
            paused_position_us: self.paused_position_us,
            total_duration_us: self.total_duration_us,
        }
    }
}

impl AudioManagerState {
    #[verifier::type_invariant]
    spec fn inv(self) -> bool {
        manager_invariant(self@)
    }

    /// A manager that is idle, with no sink and no audio.
    pub fn new() -> (m: Self)
        ensures
            m@ == initial_view(),
            manager_invariant(m@),
    {
        AudioManagerState {
            has_sink: false,
            state: PlaybackState::Idle,
            current_audio_data: None,
            play_start_us: None,
            paused_position_us: None,
            total_duration_us: None,
        }
    }

}

/// Estimates how long `len` bytes of audio play, in microseconds (see
/// `estimated_duration_us`).
pub fn estimate_duration_us(len: usize) -> (d: u64)
    ensures
        d as nat == estimated_duration_us(len as nat),
{
    let wide: u128 = (len as u128) * 2500 / 441;
    if wide > u64::MAX as u128 {
        u64::MAX
    } else {
        wide as u64
    }
}

/// The fields of a manager, as plain values.
struct ManagerParts {
    has_sink: bool,
    current_audio_data: Option<Vec<u8>>,
    play_start_us: Option<u64>,
    paused_position_us: Option<u64>,
    total_duration_us: Option<u64>,
}

/// Moves the fields out of `manager`, leaving a fresh idle manager in its place.
fn take_manager(manager: &mut AudioManagerState) -> (m: ManagerParts)
    ensures
        final(manager)@ == initial_view(),
        manager_invariant(old(manager)@),
        m.has_sink == old(manager)@.has_sink,
        (match m.current_audio_data {
            Some(a) => Some(a@),
            None => None,
        }) == old(manager)@.audio,
        m.play_start_us == old(manager)@.play_start_us,
        m.paused_position_us == old(manager)@.paused_position_us,
        m.total_duration_us == old(manager)@.total_duration_us,
{
    let mut taken = AudioManagerState::new();
    std::mem::swap(manager, &mut taken);
    proof { use_type_invariant(&taken); }
    let AudioManagerState {
        has_sink,
        state: _,
        current_audio_data,
        play_start_us,
        paused_position_us,
        total_duration_us,
    } = taken;
    ManagerParts {
        has_sink,
        current_audio_data,
        play_start_us,
        paused_position_us,
        total_duration_us,
    }
}

/// What to do to the current sink before new audio is set up: stop it if there is
/// one. The manager itself changes only once the new sink plays (`play`).
pub fn sink_action_before_play(manager: &AudioManagerState) -> (a: SinkAction)
    ensures
        a == (if manager@.has_sink { SinkAction::Stop } else { SinkAction::Keep }),
{
    if manager.has_sink {
        SinkAction::Stop
    } else {
        SinkAction::Keep
    }
}

/// Records that `audio_data` now plays on a fresh sink, from `now_us`.
pub fn play(manager: &mut AudioManagerState, audio_data: Vec<u8>, now_us: u64)
    ensures
        final(manager)@ == after_play(old(manager)@, audio_data@, now_us),
        manager_invariant(final(manager)@),
{
    let total = estimate_duration_us(audio_data.len());
    *manager = AudioManagerState {
        has_sink: true,
        state: PlaybackState::Playing,
        current_audio_data: Some(audio_data),
        play_start_us: Some(now_us),
        paused_position_us: None,
        total_duration_us: Some(total),
    };
}

/// Time since playback last started (see `elapsed_us`).
pub fn get_elapsed_time(manager: &AudioManagerState, now_us: u64) -> (e: u64)
    ensures
        e as nat == elapsed_us(manager@, now_us),
{
    match manager.play_start_us {
        Some(start) => if now_us >= start { now_us - start } else { 0 },
        None => 0,
    }
}

/// The playback position at `now_us` (see `position_us`).
pub fn get_current_position(manager: &AudioManagerState, now_us: u64) -> (p: u64)
    ensures
        p as nat == position_us(manager@, now_us),
{
    match manager.state {
        PlaybackState::Playing => {
            let saved = match manager.paused_position_us {
                Some(p) => p,
                None => 0,
            };
            saved.saturating_add(get_elapsed_time(manager, now_us))
        },
        PlaybackState::Paused => match manager.paused_position_us {
            Some(p) => p,
            None => 0,
        },
        _ => 0,
    }
}

/// Pauses playback at `now_us`, if there is a sink (see `after_pause`), and says
/// whether the sink must be paused.
pub fn pause(manager: &mut AudioManagerState, now_us: u64) -> (a: SinkAction)
    ensures
        final(manager)@ == after_pause(old(manager)@, now_us),
        manager_invariant(old(manager)@),
        manager_invariant(final(manager)@),
        a == (if old(manager)@.has_sink { SinkAction::Pause } else { SinkAction::Keep }),
{
    proof { use_type_invariant(&*manager); }
    if manager.has_sink {
        let position = get_current_position(manager, now_us);
        let m = take_manager(manager);
        *manager = AudioManagerState {
            has_sink: true,
            state: PlaybackState::Paused,
            current_audio_data: m.current_audio_data,
            play_start_us: m.play_start_us,
            paused_position_us: Some(position),
            total_duration_us: m.total_duration_us,
        };
        proof { use_type_invariant(&*manager); }
        SinkAction::Pause
    } else {
        SinkAction::Keep
    }
}

/// Resumes playback from `now_us`, if there is a sink (see `after_resume`), and says
/// whether the sink must play again.
pub fn resume(manager: &mut AudioManagerState, now_us: u64) -> (a: SinkAction)
    ensures
        final(manager)@ == after_resume(old(manager)@, now_us),
        manager_invariant(old(manager)@),
        manager_invariant(final(manager)@),
        a == (if old(manager)@.has_sink { SinkAction::Resume } else { SinkAction::Keep }),
{
    proof { use_type_invariant(&*manager); }
    if manager.has_sink {
        let m = take_manager(manager);
        *manager = AudioManagerState {
            has_sink: true,
            state: PlaybackState::Playing,
            current_audio_data: m.current_audio_data,
            play_start_us: Some(now_us),
            paused_position_us: m.paused_position_us,
            total_duration_us: m.total_duration_us,
        };
        proof { use_type_invariant(&*manager); }
        SinkAction::Resume
    } else {
        SinkAction::Keep
    }
}

/// Stops playback and drops the sink (see `after_stop`), and says whether a sink
/// was there to stop.
pub fn stop(manager: &mut AudioManagerState) -> (a: SinkAction)
    ensures
        final(manager)@ == after_stop(old(manager)@),
        manager_invariant(old(manager)@),
        manager_invariant(final(manager)@),
        a == (if old(manager)@.has_sink { SinkAction::Stop } else { SinkAction::Keep }),
{
    proof { use_type_invariant(&*manager); }
    let m = take_manager(manager);
    let had_sink = m.has_sink;
    *manager = AudioManagerState {
        has_sink: false,
        state: PlaybackState::Stopped,
        current_audio_data: m.current_audio_data,
        play_start_us: None,
        paused_position_us: None,
        total_duration_us: m.total_duration_us,
    };
    proof { use_type_invariant(&*manager); }
    if had_sink {
        SinkAction::Stop
    } else {
        SinkAction::Keep
    }
}

/// Records `position_us` as the playback position at `now_us` (see `after_seek`).
/// The sink cannot seek; the request always succeeds.
pub fn seek(manager: &mut AudioManagerState, position_us: u64, now_us: u64) -> (r: Result<(), String>)
    ensures
        final(manager)@ == after_seek(old(manager)@, position_us, now_us),
        manager_invariant(old(manager)@),
        manager_invariant(final(manager)@),
        r is Ok,
{
    proof { use_type_invariant(&*manager); }
    if manager.has_sink {
        let playing = match manager.state {
            PlaybackState::Playing => true,
            _ => false,
        };
        let m = take_manager(manager);
        *manager = AudioManagerState {
            has_sink: true,
            state: if playing { PlaybackState::Playing } else { PlaybackState::Paused },
            current_audio_data: m.current_audio_data,
            play_start_us: if playing { Some(now_us) } else { m.play_start_us },
            paused_position_us: Some(position_us),
            total_duration_us: m.total_duration_us,
        };
    }
    proof { use_type_invariant(&*manager); }
    Ok(())
}

/// The state of the player. Every manager satisfies `manager_invariant`; this is
/// where its callers learn so.
pub fn get_state(manager: &AudioManagerState) -> (s: PlaybackState)
    ensures
        s == manager@.state,
        manager_invariant(manager@),
{
    proof { use_type_invariant(manager); }
    manager.state
}

/// The progress report at `now_us` (see `progress_at`).
pub fn get_progress(manager: &AudioManagerState, now_us: u64) -> (p: Option<PlaybackProgress>)
    ensures
        p == progress_at(manager@, now_us),
{
    let total = match manager.total_duration_us {
        Some(t) => t,
        None => 0,
    };
    let active = match manager.state {
        PlaybackState::Playing => true,
        PlaybackState::Paused => true,
        _ => false,
    };
    if !active || total == 0 {
        return None;
    }
    let current = get_current_position(manager, now_us);
    let scaled: u128 = (current as u128) * 10000 / (total as u128);
    let percent: u64 = if scaled > 10000 { 10000 } else { scaled as u64 };
    Some(PlaybackProgress { current_us: current, total_us: total, percent_hundredths: percent })
}

/// The manager starts in a state that satisfies `manager_invariant`, and every
/// transition keeps it.
pub proof fn lemma_transitions_keep_invariant(
    v: ManagerView,
    audio: Seq<u8>,
    position: u64,
    now_us: u64,
)
    requires
        manager_invariant(v),
    ensures
        manager_invariant(initial_view()),
        manager_invariant(after_play(v, audio, now_us)),
        manager_invariant(after_pause(v, now_us)),
        manager_invariant(after_resume(v, now_us)),
        manager_invariant(after_stop(v)),
        manager_invariant(after_seek(v, position, now_us)),
{
}

/// Pausing and then resuming a manager that has a sink leaves it playing the same
/// audio, and right after the resume it stands where it stood when it was paused.
pub proof fn lemma_pause_then_resume(v: ManagerView, pause_us: u64, resume_us: u64)
    requires
        manager_invariant(v),
        v.has_sink,
    ensures
        after_resume(after_pause(v, pause_us), resume_us).state == PlaybackState::Playing,
        after_resume(after_pause(v, pause_us), resume_us).has_sink,
        after_resume(after_pause(v, pause_us), resume_us).audio == v.audio,
        position_us(after_resume(after_pause(v, pause_us), resume_us), resume_us)
            == position_us(v, pause_us),
{
}

/// A pause keeps the position: right after it the manager stands where it stood
/// right before it, and from then on it stays there.
pub proof fn lemma_pause_keeps_position(v: ManagerView, now_us: u64, later_us: u64)
    requires
        manager_invariant(v),
    ensures
        position_us(after_pause(v, now_us), now_us) == position_us(v, now_us),
        v.has_sink ==> position_us(after_pause(v, now_us), later_us) == position_us(v, now_us),
{
}

/// Pausing twice is the same as pausing once.
pub proof fn lemma_pause_is_idempotent(v: ManagerView, t1: u64, t2: u64)
    requires
        manager_invariant(v),
    ensures
        after_pause(after_pause(v, t1), t2) == after_pause(v, t1),
{
}

/// New audio plays from its start: at the moment of play its position is zero, and
/// later it is the time since then.
pub proof fn lemma_play_starts_at_zero(v: ManagerView, audio: Seq<u8>, now_us: u64, later_us: u64)
    requires
        now_us <= later_us,
    ensures
        position_us(after_play(v, audio, now_us), now_us) == 0,
        position_us(after_play(v, audio, now_us), later_us) == later_us - now_us,
{
}

/// While paused, the position does not move with time.
pub proof fn lemma_paused_position_is_frozen(v: ManagerView, t1: u64, t2: u64)
    requires
        v.state == PlaybackState::Paused,
    ensures
        position_us(v, t1) == position_us(v, t2),
{
}

/// While playing, the position never goes back as time goes on.
pub proof fn lemma_playing_position_is_monotone(v: ManagerView, t1: u64, t2: u64)
    requires
        v.state == PlaybackState::Playing,
        t1 <= t2,
    ensures
        position_us(v, t1) <= position_us(v, t2),
{
}

/// A stop always ends stopped, without a sink, at position zero and without a
/// progress report, keeps the audio, and a second stop changes nothing.
pub proof fn lemma_stop(v: ManagerView, now_us: u64)
    ensures
        after_stop(v).state == PlaybackState::Stopped,
        !after_stop(v).has_sink,
        after_stop(v).audio == v.audio,
        position_us(after_stop(v), now_us) == 0,
        progress_at(after_stop(v), now_us) is None,
        after_stop(after_stop(v)) == after_stop(v),
{
}

/// A seek on a manager that has a sink moves its position to the requested one, keeps
/// its state, and a paused manager stays there.
pub proof fn lemma_seek_sets_position(v: ManagerView, position: u64, now_us: u64, later_us: u64)
    requires
        manager_invariant(v),
        v.has_sink,
    ensures
        after_seek(v, position, now_us).state == v.state,
        position_us(after_seek(v, position, now_us), now_us) == position,
        v.state == PlaybackState::Paused ==> position_us(after_seek(v, position, now_us), later_us)
            == position,
{
}

/// Pause and resume change nothing on a manager that is idle or stopped.
pub proof fn lemma_pause_resume_without_playback(v: ManagerView, now_us: u64)
    requires
        manager_invariant(v),
        v.state == PlaybackState::Idle || v.state == PlaybackState::Stopped,
    ensures
        after_pause(v, now_us) == v,
        after_resume(v, now_us) == v,
{
}

/// A progress report exists exactly while playing or paused audio of positive
/// estimated length, its total is that length, and its share never exceeds one hundred percent.
pub proof fn lemma_progress_bounds(v: ManagerView, now_us: u64)
    requires
        manager_invariant(v),
    ensures
        progress_at(v, now_us) is Some <==> ((v.state == PlaybackState::Playing || v.state
            == PlaybackState::Paused) && estimated_duration_us(v.audio.unwrap().len()) > 0),
        progress_at(v, now_us) is Some ==> {
            &&& progress_at(v, now_us).unwrap().total_us as nat == estimated_duration_us(
                v.audio.unwrap().len(),
            )
            &&& progress_at(v, now_us).unwrap().percent_hundredths <= 10000
            &&& progress_at(v, now_us).unwrap().current_us as nat == position_us(v, now_us)
        },
{
}

/// The share in a progress report is the reported position over the reported
/// total, in hundredths of a percent, rounded down and capped at one hundred
/// percent; the total is positive.
pub proof fn lemma_progress_share_is_position_over_total(v: ManagerView, now_us: u64)
    ensures
        progress_at(v, now_us) matches Some(p) ==> {
            &&& p.total_us > 0
            &&& p.percent_hundredths as nat == min_nat(
                p.current_us as nat * 10000 / p.total_us as nat,
                10000,
            )
        },
{
}

/// Play forgets what the manager held: the result depends only on the audio and the
/// time of play, it holds that audio, and its total is the estimate for that audio.
pub proof fn lemma_play_holds_new_audio(
    v: ManagerView,
    w: ManagerView,
    audio: Seq<u8>,
    now_us: u64,
)
    ensures
        after_play(v, audio, now_us) == after_play(w, audio, now_us),
        after_play(v, audio, now_us).audio == Some(audio),
        after_play(v, audio, now_us).total_duration_us == Some(
            estimated_duration_us(audio.len()) as u64,
        ),
        after_play(v, audio, now_us).state == PlaybackState::Playing,
{
}

/// A second play replaces the first: after two plays the manager holds the second
/// audio, with its total, from the second play's time.
pub proof fn lemma_second_play_replaces_first(
    v: ManagerView,
    a1: Seq<u8>,
    t1: u64,
    a2: Seq<u8>,
    t2: u64,
    later_us: u64,
)
    requires
        t2 <= later_us,
        estimated_duration_us(a2.len()) > 0,
    ensures
        after_play(after_play(v, a1, t1), a2, t2).audio == Some(a2),
        progress_at(after_play(after_play(v, a1, t1), a2, t2), later_us) matches Some(p) && p.total_us
            as nat == estimated_duration_us(a2.len()) && p.current_us == later_us - t2,
{
}

/// Each 176400 bytes of audio (one second at 44100 samples per second, two channels,
/// two bytes a sample) are estimated at exactly one second, as long as the estimate
/// fits in a `u64`.
pub proof fn lemma_duration_one_second_per_176400_bytes(seconds: nat)
    requires
        seconds * 1_000_000 <= u64::MAX,
    ensures
        estimated_duration_us(seconds * (BYTES_PER_SECOND as nat)) == seconds * 1_000_000,
{
    assert(seconds * 176400 * 2500 == (seconds * 1_000_000) * 441) by (nonlinear_arith);
    assert((seconds * 1_000_000) * 441 / 441 == seconds * 1_000_000) by (nonlinear_arith);
}

/// More audio is never estimated shorter, and below the cap the estimate is the
/// byte count scaled by 1000000 / 176400 and rounded down: it is at most that
/// amount and less than one microsecond below it.
pub proof fn lemma_duration_is_proportional(len: nat, more: nat)
    requires
        len <= more,
    ensures
        estimated_duration_us(len) <= estimated_duration_us(more),
        len * 1_000_000 / 176400 <= u64::MAX ==> estimated_duration_us(len) * 176400 <= len
            * 1_000_000 < (estimated_duration_us(len) + 1) * 176400,
{
    assert(len * 2500 / 441 <= more * 2500 / 441) by (nonlinear_arith)
        requires
            len <= more,
    ;
    assert(len * 1_000_000 / 176400 == len * 2500 / 441) by (nonlinear_arith);
    let d = len * 2500 / 441;
    assert(d * 441 <= len * 2500 < (d + 1) * 441) by (nonlinear_arith)
        requires
            d == len * 2500 / 441,
    ;
}

/// Audio of positive length has a positive estimated duration.
pub proof fn lemma_nonempty_audio_has_duration(len: nat)
    ensures
        estimated_duration_us(len) > 0 <==> len > 0,
{
    if len > 0 {
        assert(len * 2500 >= 2500) by (nonlinear_arith)
            requires
                len > 0,
        ;
    }
}

} // verus!

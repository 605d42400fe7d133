//! The buzzer: what to do with its PWM channel to sound a note or a melody.
//!
//! A caller runs the actions in order on the timer channel and the clock.
use vstd::prelude::*;

verus! {

/// Duty cycle of a sounding note, in percent.
pub const DUTY_PERCENT: u8 = 50;

/// One action on the buzzer's PWM channel.
#[derive(Clone, Copy, Debug, PartialEq, Eq, Structural)]
pub enum BuzzerAction {
    /// Set the duty cycle fully off, then enable the channel.
    Enable,
    /// Set the duty cycle fully off, leaving the frequency as it is.
    Silence,
    /// Set the timer to `freq_hz` and the duty cycle to `DUTY_PERCENT`.
    Tone { freq_hz: u32 },
    /// Wait this many milliseconds.
    WaitMillis(u32),
    /// Disable the channel.
    Disable,
}

/// A frequency of zero is a rest; any other sounds at that frequency.
pub open spec fn set_spec(freq_hz: u32) -> BuzzerAction {
    if freq_hz == 0 {
        BuzzerAction::Silence
    } else {
        BuzzerAction::Tone { freq_hz }
    }
}

/// Enable, then for each (frequency, duration) set the frequency and wait,
/// then disable.
pub open spec fn play_spec(tone: Seq<(u32, u16)>) -> Seq<BuzzerAction> {
    Seq::new(
        2 * tone.len() + 2,
        |i: int|
            if i == 0 {
                BuzzerAction::Enable
            } else if i == 2 * tone.len() + 1 {
                BuzzerAction::Disable
            } else if (i - 1) % 2 == 0 {
                set_spec(tone[(i - 1) / 2].0)
            } else {
                BuzzerAction::WaitMillis(tone[(i - 1) / 2].1 as u32)
            },
    )
}

/// The action that sets the buzzer to `freq_hz`.
pub fn set_action(freq_hz: u32) -> (r: BuzzerAction)
    ensures
        r == set_spec(freq_hz),
{
    if freq_hz == 0 {
        BuzzerAction::Silence
    } else {
        BuzzerAction::Tone { freq_hz }
    }
}

/// Sound one note of `freq_hz` for `dura_ms` milliseconds.
pub fn note_script(freq_hz: u32, dura_ms: u32) -> (r: Vec<BuzzerAction>)
    ensures
        r@ == seq![
            BuzzerAction::Enable,
            set_spec(freq_hz),
            BuzzerAction::WaitMillis(dura_ms),
            BuzzerAction::Disable,
        ],
{
    let mut v: Vec<BuzzerAction> = Vec::new();
    v.push(BuzzerAction::Enable);
    v.push(set_action(freq_hz));
    v.push(BuzzerAction::WaitMillis(dura_ms));
    v.push(BuzzerAction::Disable);
    v
}

/// Play the notes of `tone` in order, each for its duration.
pub fn play_script(tone: &[(u32, u16)]) -> (r: Vec<BuzzerAction>)
    ensures
        r@ == play_spec(tone@),
{
    let ghost n = tone@.len();
    let mut v: Vec<BuzzerAction> = Vec::new();
    v.push(BuzzerAction::Enable);
    let mut k: usize = 0;
    while k < tone.len()
        invariant
            0 <= k <= n,
            n == tone@.len(),
            v@ =~= play_spec(tone@).take(2 * k + 1),
        decreases n - k,
    {
        let (f, d) = tone[k];
        v.push(set_action(f));
        v.push(BuzzerAction::WaitMillis(d as u32));
        proof {
            let b = 2 * k as int;
            assert(b % 2 == 0 && b / 2 == k as int);
            assert((b + 1) % 2 == 1 && (b + 1) / 2 == k as int);
        }
        k = k + 1;
        assert(v@ =~= play_spec(tone@).take(2 * k + 1));
    }
    v.push(BuzzerAction::Disable);
    assert(v@ =~= play_spec(tone@));
    v
}

} // verus!

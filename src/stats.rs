//! Per-session statistics and the text report written when a session ends.
use vstd::prelude::*;
use vstd::string::*;
use crate::grid::Direction;
use crate::outside::{local_time_text, now_unix_millis};

verus! {

/// The characters of a decimal digit.
pub open spec fn digit_text(d: nat) -> Seq<char> {
    if d == 0 { "0"@ }
    else if d == 1 { "1"@ }
    else if d == 2 { "2"@ }
    else if d == 3 { "3"@ }
    else if d == 4 { "4"@ }
    else if d == 5 { "5"@ }
    else if d == 6 { "6"@ }
    else if d == 7 { "7"@ }
    else if d == 8 { "8"@ }
    else { "9"@ }
}

/// `n` written in decimal, without leading zeros.
pub open spec fn decimal(n: nat) -> Seq<char>
    decreases n,
{
    if n < 10 { digit_text(n) } else { decimal(n / 10) + digit_text(n % 10) }
}

fn digit_str(d: u64) -> (r: &'static str)
    requires
        d < 10,
    ensures
        r@ == digit_text(d as nat),
{
    if d == 0 { "0" }
    else if d == 1 { "1" }
    else if d == 2 { "2" }
    else if d == 3 { "3" }
    else if d == 4 { "4" }
    else if d == 5 { "5" }
    else if d == 6 { "6" }
    else if d == 7 { "7" }
    else if d == 8 { "8" }
    else { "9" }
}

/// Appends `n` written in decimal.
pub fn append_decimal(s: &mut String, n: u64)
    ensures
        final(s)@ == old(s)@ + decimal(n as nat),
    decreases n,
{
    if n >= 10 {
        append_decimal(s, n / 10);
    }
    s.append(digit_str(n % 10));
    assert(s@ =~= old(s)@ + decimal(n as nat));
}

/// Counters of one game session.
#[derive(Clone, Copy, Debug, PartialEq, Eq, Structural)]
pub struct GameStats {
    /// When the session began, in milliseconds since the Unix epoch.
    pub start_ms: u64,
    /// How long the session has run, in milliseconds, as of the last refresh.
    pub time_played_ms: u64,
    pub up_turns: u32,
    pub down_turns: u32,
    pub left_turns: u32,
    pub right_turns: u32,
    pub food_eaten: u32,
}

/// A counter raised by one, holding at its largest value.
pub open spec fn bumped(n: u32) -> u32 {
    if n < u32::MAX { (n + 1) as u32 } else { n }
}

/// The time elapsed between `start` and `now`, zero if the clock went back.
pub open spec fn elapsed(start: u64, now: u64) -> u64 {
    if now >= start { (now - start) as u64 } else { 0 }
}

/// The session report ready to be written out: where and what.
pub struct Report {
    pub file_name: String,
    pub text: String,
}

/// The report is that of `s` ending with `final_score`, for some reading of
/// the session start in the file name and in the text.
pub open spec fn reports(r: Report, s: GameStats, final_score: u32) -> bool {
    exists|stamp: Seq<char>, started: Seq<char>|
        r.file_name@ == report_name(stamp) && r.text@ == report_text(s, final_score, started)
}

/// The statistics after one more turn towards `dir`.
pub open spec fn with_turn(s: GameStats, dir: Direction) -> GameStats {
    match dir {
        Direction::Up => GameStats { up_turns: bumped(s.up_turns), ..s },
        Direction::Down => GameStats { down_turns: bumped(s.down_turns), ..s },
        Direction::Left => GameStats { left_turns: bumped(s.left_turns), ..s },
        Direction::Right => GameStats { right_turns: bumped(s.right_turns), ..s },
    }
}

/// The name of the report file for a session whose start reads `stamp`.
pub open spec fn report_name(stamp: Seq<char>) -> Seq<char> {
    stamp + "_snake_game_stats.txt"@
}

/// A labelled line holding a number.
pub open spec fn number_line(label: Seq<char>, n: nat) -> Seq<char> {
    label + decimal(n) + "\n"@
}

/// The report of a session: header, start time, time played as minutes and
/// seconds, final score, food eaten, the turns in each direction and their sum.
pub open spec fn report_text(s: GameStats, final_score: u32, started: Seq<char>) -> Seq<char> {
    let secs = s.time_played_ms as nat / 1000;
    "Snake Game Statistics\n"@
        + "=====================\n"@
        + "Game started at: "@ + started + "\n"@
        + "Time played: "@ + decimal(secs / 60) + "m "@ + decimal(secs % 60) + "s\n"@
        + number_line("Final score: "@, final_score as nat)
        + number_line("Food eaten: "@, s.food_eaten as nat)
        + "\n"@
        + "Movement Statistics:\n"@
        + number_line("  Up turns: "@, s.up_turns as nat)
        + number_line("  Down turns: "@, s.down_turns as nat)
        + number_line("  Left turns: "@, s.left_turns as nat)
        + number_line("  Right turns: "@, s.right_turns as nat)
        + "\n"@
        + number_line("Total turns: "@, total_turns(s))
}

/// The turns taken in all four directions.
pub open spec fn total_turns(s: GameStats) -> nat {
    s.up_turns as nat + s.down_turns as nat + s.left_turns as nat + s.right_turns as nat
}

fn append_number_line(s: &mut String, label: &str, n: u64)
    ensures
        final(s)@ == old(s)@ + number_line(label@, n as nat),
{
    s.append(label);
    append_decimal(s, n);
    s.append("\n");
    assert(s@ =~= old(s)@ + number_line(label@, n as nat));
}

/// The file name of the report: the session start, then a fixed suffix.
pub fn file_name_for(stamp: &str) -> (r: String)
    ensures
        r@ == report_name(stamp@),
{
    let mut r = String::from_str(stamp);
    r.append("_snake_game_stats.txt");
    r
}

impl GameStats {
    /// A session that began at `start_ms`, with every counter at zero.
    pub open spec fn spec_started_at(start_ms: u64) -> GameStats {
        GameStats {
            start_ms,
            time_played_ms: 0,
            up_turns: 0,
            down_turns: 0,
            left_turns: 0,
            right_turns: 0,
            food_eaten: 0,
        }
    }

    /// A session that began at `start_ms`, with every counter at zero.
    pub fn started_at(start_ms: u64) -> (r: GameStats)
        ensures
            r == GameStats::spec_started_at(start_ms),
    {
        GameStats {
            start_ms,
            time_played_ms: 0,
            up_turns: 0,
            down_turns: 0,
            left_turns: 0,
            right_turns: 0,
            food_eaten: 0,
        }
    }

    /// A session beginning now, read from the system clock (the epoch itself
    /// where the clock stands before it), with every counter at zero.
    pub fn new() -> (r: GameStats)
        ensures
            r == GameStats::spec_started_at(r.start_ms),
    {
        let start = match now_unix_millis() {
            Some(ms) => ms,
            None => 0,
        };
        GameStats::started_at(start)
    }

    /// Sets the time played to what has elapsed from the start until `now_ms`,
    /// or to zero where `now_ms` lies before the start.
    pub fn refresh_elapsed(&mut self, now_ms: u64)
        ensures
            *final(self) == (GameStats { time_played_ms: elapsed(old(self).start_ms, now_ms), ..*old(self) }),
    {
        self.time_played_ms = if now_ms >= self.start_ms { now_ms - self.start_ms } else { 0 };
    }

    /// Sets the time played from the system clock; left as it was where the
    /// clock cannot be read.
    pub fn update(&mut self)
        ensures
            final(self).start_ms == old(self).start_ms,
            final(self).up_turns == old(self).up_turns,
            final(self).down_turns == old(self).down_turns,
            final(self).left_turns == old(self).left_turns,
            final(self).right_turns == old(self).right_turns,
            final(self).food_eaten == old(self).food_eaten,
    {
        match now_unix_millis() {
            Some(now) => self.refresh_elapsed(now),
            None => {},
        }
    }

    /// Counts one turn towards `dir`.
    pub fn record_turn(&mut self, dir: Direction)
        ensures
            *final(self) == with_turn(*old(self), dir),
    {
        match dir {
            Direction::Up => self.up_turns = self.up_turns.saturating_add(1),
            Direction::Down => self.down_turns = self.down_turns.saturating_add(1),
            Direction::Left => self.left_turns = self.left_turns.saturating_add(1),
            Direction::Right => self.right_turns = self.right_turns.saturating_add(1),
        }
    }

    /// Counts one piece of food eaten.
    pub fn record_food(&mut self)
        requires
            old(self).food_eaten < u32::MAX,
        ensures
            *final(self) == (GameStats { food_eaten: (old(self).food_eaten + 1) as u32, ..*old(self) }),
    {
        self.food_eaten = self.food_eaten + 1;
    }

    /// The report text, given how the session start reads.
    pub fn report_text(&self, final_score: u32, started: &str) -> (r: String)
        ensures
            r@ == report_text(*self, final_score, started@),
    {
        let secs = self.time_played_ms / 1000;
        let mut r = String::new();
        r.append("Snake Game Statistics\n");
        r.append("=====================\n");
        r.append("Game started at: ");
        r.append(started);
        r.append("\n");
        r.append("Time played: ");
        append_decimal(&mut r, secs / 60);
        r.append("m ");
        append_decimal(&mut r, secs % 60);
        r.append("s\n");
        append_number_line(&mut r, "Final score: ", final_score as u64);
        append_number_line(&mut r, "Food eaten: ", self.food_eaten as u64);
        r.append("\n");
        r.append("Movement Statistics:\n");
        append_number_line(&mut r, "  Up turns: ", self.up_turns as u64);
        append_number_line(&mut r, "  Down turns: ", self.down_turns as u64);
        append_number_line(&mut r, "  Left turns: ", self.left_turns as u64);
        append_number_line(&mut r, "  Right turns: ", self.right_turns as u64);
        r.append("\n");
        let total = self.up_turns as u64 + self.down_turns as u64 + self.left_turns as u64
            + self.right_turns as u64;
        append_number_line(&mut r, "Total turns: ", total);
        assert(r@ =~= report_text(*self, final_score, started@));
        r
    }

    fn start_as_seconds(&self) -> (r: String)
        ensures
            r@ == decimal(self.start_ms as nat / 1000),
    {
        let mut r = String::new();
        append_decimal(&mut r, self.start_ms / 1000);
        r
    }

    /// The session report: its file is named after the session start in local
    /// time to the second, and its text gives the start in local time.
    pub fn report(&self, final_score: u32) -> (r: Report)
        ensures
            reports(r, *self, final_score),
    {
        let (stamp, started) = if self.start_ms <= i64::MAX as u64 {
            (
                local_time_text(self.start_ms, "%Y%m%d_%H%M%S"),
                local_time_text(self.start_ms, "%Y-%m-%d %H:%M:%S"),
            )
        } else {
            (None, None)
        };
        // Where no calendar date can be had, the start reads as Unix seconds.
        let stamp = match stamp {
            Some(t) => t,
            None => self.start_as_seconds(),
        };
        let started = match started {
            Some(t) => t,
            None => self.start_as_seconds(),
        };
        let file_name = file_name_for(stamp.as_str());
        let text = self.report_text(final_score, started.as_str());
        Report { file_name, text }
    }
}

} // verus!

//! The root-chain monitor: what it reports for each sync-status event, and
//! the formatters of sync speed and transfer rates that its status line uses.

use vstd::prelude::*;
use vstd::string::StringExecFns;

use crate::error::Error;
use crate::text::{
    decimal, digit_char, fixed1, pad_left, push_decimal, push_fixed1, push_padded,
};

verus! {

/// Text between the control codes that switch a terminal to bold white and
/// back to its defaults.
pub open spec fn white_bold(text: Seq<char>) -> Seq<char> {
    "\x1B[1;37m"@ + text + "\x1B[0m"@
}

/// Text between the control codes that switch a terminal to white and back
/// to its defaults.
pub open spec fn white(text: Seq<char>) -> Seq<char> {
    "\x1B[37m"@ + text + "\x1B[0m"@
}

/// `Style::paint` of ansi_term on the style that `Colour::bold` gives for
/// `Colour::White`, shown as a string by the painted string's `Display`: the
/// style's prefix (the escape introducer, the code 1 for bold, the code 37
/// for a white foreground, and `m`), the text unchanged, and the reset
/// sequence. This is believed, not proved.
#[verifier::external_body]
fn paint_white_bold(text: &str) -> (r: String)
    ensures
        r@ == white_bold(text@),
{
    ansi_term::Colour::White.bold().paint(text).to_string()
}

/// `Colour::paint` of ansi_term on `Colour::White`, shown as a string by the
/// painted string's `Display`: the prefix with the code 37 alone, the text
/// unchanged, and the reset sequence. This is believed, not proved.
#[verifier::external_body]
fn paint_white(text: &str) -> (r: String)
    ensures
        r@ == white(text@),
{
    ansi_term::Colour::White.paint(text).to_string()
}

/// By how many blocks `best_number` lies ahead of the block number seen at
/// the previous event; 0 where there was none or where it does not lie ahead.
pub open spec fn speed_delta(best_number: u64, last_number: Option<u64>) -> nat {
    match last_number {
        Some(num) => if best_number > num {
            (best_number - num) as nat
        } else {
            0
        },
        None => 0,
    }
}

/// The sync rate in whole blocks per ten seconds, rounded down.
pub open spec fn speed_rate(best_number: u64, last_number: Option<u64>, elapsed_millis: u64) -> nat {
    let delta = speed_delta(best_number, last_number);
    if delta == 0 {
        0
    } else {
        (delta * 10_000 / (elapsed_millis as nat)) as nat
    }
}

/// The speed suffix of a rate in blocks per ten seconds: nothing below one
/// block per ten seconds, else the rate in blocks per second with one
/// fractional digit, right-aligned in four characters.
pub open spec fn speed_text(rate: nat) -> Seq<char> {
    if rate == 0 {
        Seq::empty()
    } else {
        " "@ + pad_left(fixed1(rate), 4) + " bps"@
    }
}

/// The sync-speed suffix of a status line, from the best block number now,
/// the one at the previous event and the milliseconds between the two.
pub fn speed(best_number: u64, last_number: Option<u64>, elapsed_millis: u64) -> (s: String)
    requires
        speed_delta(best_number, last_number) > 0 ==> elapsed_millis > 0,
    ensures
        s@ == speed_text(speed_rate(best_number, last_number, elapsed_millis)),
{
    let delta: u64 = match last_number {
        Some(num) => if best_number > num {
            best_number - num
        } else {
            0
        },
        None => 0,
    };
    if delta == 0 {
        return String::new();
    }
    let rate: u128 = (delta as u128) * 10_000 / (elapsed_millis as u128);
    if rate == 0 {
        return String::new();
    }
    let mut number = String::new();
    push_fixed1(&mut number, rate);
    let mut s = String::from_str(" ");
    push_padded(&mut s, number.as_str(), 4);
    s.append(" bps");
    assert(number@ == fixed1(rate as nat)) by {
        assert(Seq::<char>::empty() + fixed1(rate as nat) == fixed1(rate as nat));
    }
    s
}

/// Without progress since the previous event, or without a previous event,
/// the speed suffix is empty, whatever time has passed.
pub proof fn lemma_speed_without_progress(
    best_number: u64,
    last_number: Option<u64>,
    elapsed_millis: u64,
)
    requires
        speed_delta(best_number, last_number) == 0,
    ensures
        speed_text(speed_rate(best_number, last_number, elapsed_millis)) == Seq::<char>::empty(),
{
}

/// A rate of at least one block per ten seconds is shown as a space, the
/// rate in blocks per second with one fractional digit in a field of at least
/// four characters, and the unit.
pub proof fn lemma_speed_suffix_form(rate: nat)
    requires
        rate >= 1,
    ensures
        ({
            let text = speed_text(rate);
            let number = decimal(rate / 10);
            let field = pad_left(
                number.push('.').push(digit_char((rate % 10) as int)),
                4,
            );
            &&& text == " "@ + field + " bps"@
            &&& field.len() >= 4
            &&& field[field.len() - 2] == '.'
            &&& field[field.len() - 1] == digit_char((rate % 10) as int)
        }),
{
    let number = decimal(rate / 10);
    let numeral = number.push('.').push(digit_char((rate % 10) as int));
    assert(numeral == fixed1(rate));
    let field = pad_left(numeral, 4);
    if numeral.len() < 4 {
        let blanks = Seq::new((4 - numeral.len()) as nat, |i: int| ' ');
        assert(field == blanks + numeral);
        assert(field[field.len() - 2] == numeral[numeral.len() - 2]);
        assert(field[field.len() - 1] == numeral[numeral.len() - 1]);
    }
}

/// `num / den` in tenths, rounded to the nearest tenth; a value halfway
/// between two tenths goes to the even one.
pub open spec fn round_tenths(num: nat, den: nat) -> nat {
    let scaled = num * 10;
    let below = scaled / den;
    let rest = scaled % den;
    if 2 * rest > den || (2 * rest == den && below % 2 == 1) {
        below + 1
    } else {
        below
    }
}

/// How a transfer rate in bytes per second is shown: `0` alone; below 100 in
/// whole bytes; below one MiB in kiB with one fractional digit; else in MiB
/// with one fractional digit.
pub open spec fn rate_text(bytes: u64) -> Seq<char> {
    if bytes == 0 {
        "0"@
    } else if bytes < 100 {
        decimal(bytes as nat) + " B/s"@
    } else if bytes < 1024 * 1024 {
        fixed1(round_tenths(bytes as nat, 1024)) + "kiB/s"@
    } else {
        fixed1(round_tenths(bytes as nat, 1024 * 1024)) + "MiB/s"@
    }
}

fn rounded_tenths(num: u64, den: u64) -> (t: u128)
    requires
        den > 0,
    ensures
        t == round_tenths(num as nat, den as nat),
{
    let scaled: u128 = (num as u128) * 10;
    let below: u128 = scaled / (den as u128);
    let rest: u128 = scaled % (den as u128);
    if 2 * rest > den as u128 || (2 * rest == den as u128 && below % 2 == 1) {
        below + 1
    } else {
        below
    }
}

/// A transfer rate in bytes per second, for display.
#[derive(Debug, Clone, Copy)]
pub struct TransferRateFormat(pub u64);

impl TransferRateFormat {
    /// The rate as text, with the unit that fits its size.
    pub fn to_string(&self) -> (s: String)
        ensures
            s@ == rate_text(self.0),
    {
        let bytes = self.0;
        let mut s = String::new();
        if bytes == 0 {
            s.append("0");
            assert(Seq::<char>::empty() + "0"@ == "0"@);
        } else if bytes < 100 {
            push_decimal(&mut s, bytes as u128);
            s.append(" B/s");
            assert(Seq::<char>::empty() + decimal(bytes as nat) == decimal(bytes as nat));
        } else if bytes < 1024 * 1024 {
            let tenths = rounded_tenths(bytes, 1024);
            push_fixed1(&mut s, tenths);
            s.append("kiB/s");
            assert(Seq::<char>::empty() + fixed1(tenths as nat) == fixed1(tenths as nat));
        } else {
            let tenths = rounded_tenths(bytes, 1024 * 1024);
            push_fixed1(&mut s, tenths);
            s.append("MiB/s");
            assert(Seq::<char>::empty() + fixed1(tenths as nat) == fixed1(tenths as nat));
        }
        s
    }
}

/// What the network's sync engine is doing.
#[derive(Debug, Clone, Copy, PartialEq, Eq)]
pub enum SyncState {
    /// No sync target is known.
    Idle,
    /// Blocks are being downloaded, towards the best block seen on a peer
    /// where one is known.
    Downloading { target: Option<u64> },
}

/// What the monitor reads at one sync-status event.
#[derive(Debug, Clone)]
pub struct SyncSnapshot {
    pub best_number: u64,
    pub best_hash: String,
    pub finalized_number: u64,
    pub finalized_hash: String,
    pub num_peers: usize,
    pub sync_state: SyncState,
    pub bandwidth_download: u64,
    pub bandwidth_upload: u64,
}

/// One line for the log, with its level.
#[derive(Debug, Clone, PartialEq, Eq)]
pub enum LogLine {
    Info(String),
    Warn(String),
}

/// The monitor of a running root chain. Between two events it keeps the best
/// block number of the last event that could be reported and the time of that
/// event, in milliseconds on the caller's monotonic clock.
#[derive(Debug, Clone, Copy, PartialEq, Eq)]
pub struct RootChain {
    pub last_number: Option<u64>,
    pub last_update: u64,
}

/// The status word of a status line: `Idle`, or `Syncing` with the speed
/// suffix of `rate`.
pub open spec fn status_text(sync_state: SyncState, rate: nat) -> Seq<char> {
    match sync_state {
        SyncState::Idle => "Idle"@,
        SyncState::Downloading { .. } => "Syncing"@ + speed_text(rate),
    }
}

/// The target clause of a status line: present while downloading towards a
/// known block number.
pub open spec fn target_text(sync_state: SyncState) -> Seq<char> {
    match sync_state {
        SyncState::Downloading { target: Some(n) } => ", target=#"@ + decimal(n as nat),
        _ => Seq::empty(),
    }
}

/// The status line for `snapshot`, where `rate` is the sync rate in blocks
/// per ten seconds.
pub open spec fn status_line(snapshot: SyncSnapshot, rate: nat) -> Seq<char> {
    "root chain: "@ + white_bold(status_text(snapshot.sync_state, rate)) + target_text(
        snapshot.sync_state,
    ) + " ("@ + white_bold(decimal(snapshot.num_peers as nat)) + " peers), best: #"@ + white(
        decimal(snapshot.best_number as nat),
    ) + " ("@ + snapshot.best_hash@ + "), finalized #"@ + white(
        decimal(snapshot.finalized_number as nat),
    ) + " ("@ + snapshot.finalized_hash@ + "), ⬇ "@ + rate_text(snapshot.bandwidth_download)
        + " ⬆ "@ + rate_text(snapshot.bandwidth_upload)
}

/// The milliseconds from `last_update` to `now`; 0 where `now` is not later.
pub open spec fn elapsed_millis(last_update: u64, now: u64) -> u64 {
    if now > last_update {
        (now - last_update) as u64
    } else {
        0
    }
}

/// The message logged when the chain's state could not be read at an event.
pub open spec fn chain_info_warning() -> Seq<char> {
    "Error getting best block information"@
}

impl RootChain {
    /// The monitor of a root chain whose light client was asked to start at
    /// time `now`: ready where the client started, and the failure to start
    /// it, with the client's own words, where it did not.
    pub fn new(launched: Result<(), String>, now: u64) -> (r: Result<RootChain, Error>)
        ensures
            match launched {
                Ok(_) => r == Ok::<RootChain, Error>(
                    RootChain { last_number: None, last_update: now },
                ),
                Err(reason) => r matches Err(Error::Msg(m)) && m@
                    == "Start root chain failed: "@ + reason@,
            },
    {
        match launched {
            Ok(_) => Ok(RootChain { last_number: None, last_update: now }),
            Err(reason) => {
                let mut m = String::from_str("Start root chain failed: ");
                m.append(reason.as_str());
                Err(Error::Msg(m))
            },
        }
    }

    /// The sync rate, in blocks per ten seconds, that a status line for
    /// `snapshot` at time `now` reports.
    pub open spec fn rate(self, snapshot: SyncSnapshot, now: u64) -> nat {
        speed_rate(snapshot.best_number, self.last_number, elapsed_millis(self.last_update, now))
    }

    /// An event can be handled unless it would ask for a sync rate over no
    /// time at all: progress while downloading, at the very millisecond of
    /// the previous event.
    pub open spec fn can_report(self, snapshot: Option<SyncSnapshot>, now: u64) -> bool {
        snapshot matches Some(s) ==> (s.sync_state is Downloading && speed_delta(
            s.best_number,
            self.last_number,
        ) > 0 ==> now > self.last_update)
    }
}

/// Handles one sync-status event at time `now`. With the chain's state in
/// `snapshot`, the result is the status line, and the monitor remembers the
/// best block number and the time. Without it, the result is a warning and
/// the monitor remembers what it did before.
pub fn monitor_network(monitor: &mut RootChain, snapshot: Option<&SyncSnapshot>, now: u64) -> (line:
    LogLine)
    requires
        old(monitor).can_report(
            match snapshot {
                Some(s) => Some(*s),
                None => None,
            },
            now,
        ),
    ensures
        match snapshot {
            Some(s) => {
                &&& line matches LogLine::Info(text)
                &&& text@ == status_line(*s, old(monitor).rate(*s, now))
                &&& *final(monitor) == RootChain {
                    last_number: Some(s.best_number),
                    last_update: now,
                }
            },
            None => {
                &&& line matches LogLine::Warn(text)
                &&& text@ == chain_info_warning()
                &&& *final(monitor) == *old(monitor)
            },
        },
{
    let s = match snapshot {
        Some(s) => s,
        None => {
            return LogLine::Warn(String::from_str("Error getting best block information"));
        },
    };
    let elapsed: u64 = if now > monitor.last_update {
        now - monitor.last_update
    } else {
        0
    };
    let mut status = String::new();
    let mut target = String::new();
    match s.sync_state {
        SyncState::Idle => {
            status.append("Idle");
        },
        SyncState::Downloading { target: best_seen } => {
            status.append("Syncing");
            let suffix = speed(s.best_number, monitor.last_number, elapsed);
            status.append(suffix.as_str());
            match best_seen {
                Some(n) => {
                    target.append(", target=#");
                    push_decimal(&mut target, n as u128);
                },
                None => {},
            }
        },
    }
    let ghost rate = old(monitor).rate(*s, now);
    assert(status@ == status_text(s.sync_state, rate)) by {
        assert(Seq::<char>::empty() + "Idle"@ == "Idle"@);
        assert(Seq::<char>::empty() + "Syncing"@ == "Syncing"@);
    }
    assert(target@ == target_text(s.sync_state)) by {
        assert(Seq::<char>::empty() + ", target=#"@ == ", target=#"@);
    }
    monitor.last_number = Some(s.best_number);
    monitor.last_update = now;

    let mut peers = String::new();
    push_decimal(&mut peers, s.num_peers as u128);
    let mut best = String::new();
    push_decimal(&mut best, s.best_number as u128);
    let mut finalized = String::new();
    push_decimal(&mut finalized, s.finalized_number as u128);
    assert(peers@ == decimal(s.num_peers as nat)) by {
        assert(Seq::<char>::empty() + decimal(s.num_peers as nat) == decimal(s.num_peers as nat));
    }
    assert(best@ == decimal(s.best_number as nat)) by {
        assert(Seq::<char>::empty() + decimal(s.best_number as nat) == decimal(
            s.best_number as nat,
        ));
    }
    assert(finalized@ == decimal(s.finalized_number as nat)) by {
        assert(Seq::<char>::empty() + decimal(s.finalized_number as nat) == decimal(
            s.finalized_number as nat,
        ));
    }

    let mut text = String::from_str("root chain: ");
    text.append(paint_white_bold(status.as_str()).as_str());
    text.append(target.as_str());
    text.append(" (");
    text.append(paint_white_bold(peers.as_str()).as_str());
    text.append(" peers), best: #");
    text.append(paint_white(best.as_str()).as_str());
    text.append(" (");
    text.append(s.best_hash.as_str());
    text.append("), finalized #");
    text.append(paint_white(finalized.as_str()).as_str());
    text.append(" (");
    text.append(s.finalized_hash.as_str());
    text.append("), ⬇ ");
    text.append(TransferRateFormat(s.bandwidth_download).to_string().as_str());
    text.append(" ⬆ ");
    text.append(TransferRateFormat(s.bandwidth_upload).to_string().as_str());
    LogLine::Info(text)
}

} // verus!

//! Reading the wall clock from an NTP server.
//!
//! The exchange with the server is the caller's part. Here stand the
//! arithmetic on NTP timestamps and what each outcome of the exchange
//! means for the caller.

use vstd::prelude::*;

verus! {

/// The server pool that is asked for the time.
pub const NTP_SERVER: &'static str = "pool.ntp.org";

/// The UDP port of NTP, local and remote.
pub const NTP_PORT: u16 = 123;

/// Microseconds in a second.
pub const MICROS_PER_SECOND: u64 = 1_000_000;

/// Why the clock could not be read.
#[derive(Debug, Clone, Copy, PartialEq, Eq, Structural)]
pub enum Error {
    SetupUdpFailed,
    DnsResolutionFailed,
    NtpTimeFailed,
}

/// The time that a server answered: whole seconds, and a binary fraction
/// of a second in units of 2^-32 s.
#[derive(Debug, Clone, Copy, PartialEq, Eq, Structural)]
pub struct NtpResult {
    pub seconds: u32,
    pub seconds_fraction: u32,
}

/// A reading of the local monotonic clock, in microseconds.
#[derive(Debug, Clone, Copy, PartialEq, Eq, Structural)]
pub struct Timestamp {
    time_us: u64,
}

/// The message of each error.
pub open spec fn message_spec(error: Error) -> Seq<char> {
    match error {
        Error::SetupUdpFailed => "Failed to Setup UDP for NTP"@,
        Error::DnsResolutionFailed => "Failed to resolve DNS"@,
        Error::NtpTimeFailed => "Failed to get NTP time"@,
    }
}

/// The microseconds that an NTP timestamp stands for: a million for each
/// second, and the fraction scaled from 2^-32 s to microseconds, rounded down.
pub open spec fn micros_spec(seconds: u32, seconds_fraction: u32) -> int {
    seconds * 1_000_000 + (seconds_fraction * 1_000_000) / 0x1_0000_0000
}

impl Error {
    /// The message that describes the error.
    pub fn message(&self) -> (message: &'static str)
        ensures
            message@ == message_spec(*self),
    {
        match self {
            Error::SetupUdpFailed => "Failed to Setup UDP for NTP",
            Error::DnsResolutionFailed => "Failed to resolve DNS",
            Error::NtpTimeFailed => "Failed to get NTP time",
        }
    }
}

impl View for Timestamp {
    type V = u64;

    closed spec fn view(&self) -> u64 {
        self.time_us
    }
}

impl Timestamp {
    /// A timestamp of the clock reading `now_us`.
    pub fn new(now_us: u64) -> (stamp: Timestamp)
        ensures
            stamp@ == now_us,
    {
        Timestamp { time_us: now_us }
    }

    /// Takes a new reading of the clock.
    pub fn init(&mut self, now_us: u64)
        ensures
            final(self)@ == now_us,
    {
        self.time_us = now_us;
    }

    /// The whole seconds of the reading.
    pub fn timestamp_sec(&self) -> (seconds: u64)
        ensures
            seconds == self@ / 1_000_000,
    {
        self.time_us / MICROS_PER_SECOND
    }

    /// The microseconds of the reading beyond its whole seconds.
    pub fn timestamp_subsec_micros(&self) -> (micros: u32)
        ensures
            micros == self@ % 1_000_000,
    {
        (self.time_us % MICROS_PER_SECOND) as u32
    }
}

/// Converts the time that a server answered into microseconds.
pub fn get_microseconds_from_ntp(ntp_result: NtpResult) -> (micros: u64)
    ensures
        micros == micros_spec(ntp_result.seconds, ntp_result.seconds_fraction),
{
    let whole_seconds_micros = ntp_result.seconds as u64 * MICROS_PER_SECOND;
    let scaled: u64 = ntp_result.seconds_fraction as u64 * MICROS_PER_SECOND;
    let fraction_micros = scaled >> 32;
    assert(scaled >> 32 == scaled / 0x1_0000_0000) by (bit_vector);
    whole_seconds_micros + fraction_micros
}

/// The fraction of a timestamp never adds up to a second: the microseconds
/// lie in the second that `seconds` names.
pub proof fn lemma_micros_within_the_second(seconds: u32, seconds_fraction: u32)
    ensures
        seconds * 1_000_000 <= micros_spec(seconds, seconds_fraction) < (seconds + 1) * 1_000_000,
        micros_spec(seconds, seconds_fraction) <= u64::MAX,
{
    assert(0 <= (seconds_fraction * 1_000_000) / 0x1_0000_0000 < 1_000_000) by (nonlinear_arith)
        requires
            0 <= seconds_fraction < 0x1_0000_0000,
    ;
    assert(seconds * 1_000_000 <= 0xffff_ffff * 1_000_000) by (nonlinear_arith)
        requires
            0 <= seconds <= 0xffff_ffff,
    ;
}

/// Seconds and microseconds of a clock reading put it together again.
pub proof fn lemma_timestamp_parts(time_us: u64)
    ensures
        (time_us / 1_000_000) * 1_000_000 + time_us % 1_000_000 == time_us,
        0 <= time_us % 1_000_000 < 1_000_000,
{
}

/// What a bind of the local UDP socket means: go on, or give up.
pub fn socket_bound(bound: bool) -> (result: Result<(), Error>)
    ensures
        result == (if bound {
            Ok::<(), Error>(())
        } else {
            Err::<(), Error>(Error::SetupUdpFailed)
        }),
{
    if bound {
        Ok(())
    } else {
        Err(Error::SetupUdpFailed)
    }
}

/// Picks the server to ask from what the resolver answered: the first
/// address. A failed query and an empty answer are the same failure.
pub fn pick_server<T: Copy>(resolved: Option<&Vec<T>>) -> (server: Result<T, Error>)
    ensures
        server == (match resolved {
            Some(addrs) if addrs@.len() > 0 => Ok::<T, Error>(addrs@[0]),
            _ => Err::<T, Error>(Error::DnsResolutionFailed),
        }),
{
    match resolved {
        Some(addrs) => if addrs.len() > 0 {
            Ok(addrs[0])
        } else {
            Err(Error::DnsResolutionFailed)
        },
        None => Err(Error::DnsResolutionFailed),
    }
}

/// The wall clock, in microseconds, that the exchange with the server
/// yields: the answered time where there is one.
pub fn real_time(answer: Option<NtpResult>) -> (micros: Result<u64, Error>)
    ensures
        match answer {
            Some(time) => micros == Ok::<u64, Error>(
                micros_spec(time.seconds, time.seconds_fraction) as u64,
            ),
            None => micros == Err::<u64, Error>(Error::NtpTimeFailed),
        },
{
    match answer {
        Some(time) => Ok(get_microseconds_from_ntp(time)),
        None => Err(Error::NtpTimeFailed),
    }
}

} // verus!

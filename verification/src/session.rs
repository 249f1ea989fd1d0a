//! A session with one fan controller, and the accessors that turn its
//! registers into readings.
//!
//! Nothing here touches the bus. An accessor is handed the outcomes of the
//! reads it has asked for so far, and answers with the next step: one more
//! register to read, the finished value, or the failure. The caller owns the
//! loop: it performs each read and calls the accessor again.

use vstd::prelude::*;
use crate::registers::{
    FAN_SPEED_CTRL_PORT,
    FAN_STAT_PORT,
    FAN_TAC_HIGH_PORT,
    FAN_TAC_LOW_PORT,
    FAN_TAC_TGT_HIGH,
    FAN_TAC_TGT_LOW,
};
use crate::tach::{decode, lemma_tach_count_in_range, tach_count};

verus! {

/// The one way in which the bus fails: a transaction that could not
/// complete, whatever the cause.
#[derive(Clone, Copy, Debug, PartialEq, Eq, Structural)]
pub struct BusError;

/// How one register read ended: with the byte that the device returned, or
/// with the failure of the bus.
pub type ReadOutcome = Result<u8, BusError>;

/// The largest device address: an address has seven bits.
pub const ADDRESS_MAX: u16 = 0x7f;

/// What the caller of an accessor does next.
#[derive(Debug, PartialEq, Eq)]
pub enum Step<T> {
    /// Read the register at this address, append the outcome to the reads
    /// made so far, and call the accessor again.
    Read(u8),
    /// The accessor is finished, and this is its value.
    Done(T),
    /// A read failed, and the accessor with it.
    Failed(BusError),
}

/// The step of an accessor that passes on the byte of the register `port`,
/// after the reads made so far.
pub open spec fn byte_step(port: u8, reads: Seq<ReadOutcome>) -> Step<u8> {
    if reads.len() == 0 {
        Step::Read(port)
    } else {
        match reads[0] {
            Ok(byte) => Step::Done(byte),
            Err(error) => Step::Failed(error),
        }
    }
}

/// The step of an accessor that decodes the tachometer count of the
/// register pair `low_port`, `high_port`, after the reads made so far. The
/// low register is read first, and the high register only once the low
/// byte is there.
pub open spec fn count_step(low_port: u8, high_port: u8, reads: Seq<ReadOutcome>) -> Step<u16> {
    if reads.len() == 0 {
        Step::Read(low_port)
    } else {
        match reads[0] {
            Err(error) => Step::Failed(error),
            Ok(low) => if reads.len() == 1 {
                Step::Read(high_port)
            } else {
                match reads[1] {
                    Err(error) => Step::Failed(error),
                    Ok(high) => Step::Done(tach_count(high, low) as u16),
                }
            },
        }
    }
}

/// A session with one device: the path of the bus it sits on, its address
/// there, and the open connection to it, which the session alone owns.
pub struct Emc2301<'a, C> {
    path: &'a str,
    address: u16,
    connection: C,
}

impl<'a, C> Emc2301<'a, C> {
    #[verifier::type_invariant]
    spec fn address_has_seven_bits(self) -> bool {
        self.address <= ADDRESS_MAX
    }

    /// The device address of the session.
    pub closed spec fn spec_address(&self) -> u16 {
        self.address
    }

    /// The bus path of the session.
    pub closed spec fn spec_path(&self) -> &str {
        self.path
    }

    /// The connection of the session.
    pub closed spec fn spec_connection(&self) -> &C {
        &self.connection
    }

    /// Makes the session for the device at `address` on the bus at `path`.
    /// `connection` is how opening that bus and binding that address ended.
    /// There is a session only if that went well and the address has seven
    /// bits; otherwise the connection, if there is one, is dropped.
    pub fn new(path: &'a str, address: u16, connection: Result<C, BusError>) -> (session: Result<
        Self,
        BusError,
    >)
        ensures
            session is Ok <==> address <= ADDRESS_MAX && connection is Ok,
            session matches Ok(made) ==> made.path() == path && made.address() == address
                && connection == Ok::<C, BusError>(*made.connection()),
    {
        if address > ADDRESS_MAX {
            return Err(BusError);
        }
        match connection {
            Ok(connection) => Ok(Emc2301 { path, address, connection }),
            Err(error) => Err(error),
        }
    }

    /// The device address that the session is bound to.
    #[verifier::when_used_as_spec(spec_address)]
    pub fn address(&self) -> (address: u16)
        ensures
            address == self.spec_address(),
            address <= ADDRESS_MAX,
    {
        proof {
            use_type_invariant(self);
        }
        self.address
    }

    /// The path of the bus that the session was opened on.
    #[verifier::when_used_as_spec(spec_path)]
    pub fn path(&self) -> (path: &str)
        ensures
            path == self.spec_path(),
    {
        self.path
    }

    /// The open connection, for the caller to make a read on.
    #[verifier::when_used_as_spec(spec_connection)]
    pub fn connection(&self) -> (connection: &C)
        ensures
            connection == self.spec_connection(),
    {
        &self.connection
    }

    /// The byte of the register `port` as it is. `reads` holds the outcomes
    /// of the reads that this accessor has asked for so far, in order.
    pub fn read_port(&self, port: u8, reads: &[ReadOutcome]) -> (step: Step<u8>)
        ensures
            step == byte_step(port, reads@),
    {
        if reads.len() == 0 {
            return Step::Read(port);
        }
        match reads[0] {
            Ok(byte) => Step::Done(byte),
            Err(error) => Step::Failed(error),
        }
    }

    /// The fan speed: the byte of the fan speed register as it is. `reads`
    /// as for `read_port`.
    pub fn fan_speed(&self, reads: &[ReadOutcome]) -> (step: Step<u8>)
        ensures
            step == byte_step(FAN_SPEED_CTRL_PORT, reads@),
    {
        self.read_port(FAN_SPEED_CTRL_PORT, reads)
    }

    /// The fan status: the byte of the fan status register as it is, a set
    /// of fault flags. `reads` as for `read_port`.
    pub fn fan_status(&self, reads: &[ReadOutcome]) -> (step: Step<u8>)
        ensures
            step == byte_step(FAN_STAT_PORT, reads@),
    {
        self.read_port(FAN_STAT_PORT, reads)
    }

    /// The measured tachometer count, decoded from its two registers.
    /// `reads` as for `read_port`.
    pub fn fan_tac(&self, reads: &[ReadOutcome]) -> (step: Step<u16>)
        ensures
            step == count_step(FAN_TAC_LOW_PORT, FAN_TAC_HIGH_PORT, reads@),
    {
        next_count_step(FAN_TAC_LOW_PORT, FAN_TAC_HIGH_PORT, reads)
    }

    /// The target tachometer count, decoded from its two registers.
    /// `reads` as for `read_port`.
    pub fn fan_tac_tgt(&self, reads: &[ReadOutcome]) -> (step: Step<u16>)
        ensures
            step == count_step(FAN_TAC_TGT_LOW, FAN_TAC_TGT_HIGH, reads@),
    {
        next_count_step(FAN_TAC_TGT_LOW, FAN_TAC_TGT_HIGH, reads)
    }
}

/// One step of a tachometer accessor on the register pair `low_port`,
/// `high_port`.
fn next_count_step(low_port: u8, high_port: u8, reads: &[ReadOutcome]) -> (step: Step<u16>)
    ensures
        step == count_step(low_port, high_port, reads@),
{
    if reads.len() == 0 {
        return Step::Read(low_port);
    }
    let tac_low: u8 = match reads[0] {
        Ok(byte) => byte,
        Err(error) => {
            return Step::Failed(error);
        },
    };
    if reads.len() == 1 {
        return Step::Read(high_port);
    }
    let tac_high: u8 = match reads[1] {
        Ok(byte) => byte,
        Err(error) => {
            return Step::Failed(error);
        },
    };
    Step::Done(decode(tac_high, tac_low))
}

/// An accessor asks for each of its registers once, in its order, and for
/// no read after the last of them: one read for a byte, and for a count the
/// low register and then the high one.
pub proof fn lemma_reads_are_asked_in_order(
    port: u8,
    low_port: u8,
    high_port: u8,
    reads: Seq<ReadOutcome>,
)
    ensures
        byte_step(port, reads) is Read <==> reads.len() == 0,
        byte_step(port, reads) matches Step::Read(asked) ==> asked == port,
        count_step(low_port, high_port, reads) is Read <==> reads.len() == 0 || (reads.len() == 1
            && reads[0] is Ok),
        count_step(low_port, high_port, reads) matches Step::Read(asked) ==> asked == if reads.len()
            == 0 {
            low_port
        } else {
            high_port
        },
{
}

/// A read that failed fails the accessor that asked for it, be it the read
/// of the low register or that of the high one, and the error is the error
/// of a read. A value comes from reads that all went well and from nothing
/// less: a count from both bytes of its pair.
pub proof fn lemma_failed_read_fails_accessor(
    port: u8,
    low_port: u8,
    high_port: u8,
    reads: Seq<ReadOutcome>,
)
    ensures
        reads.len() >= 1 && reads[0] is Err ==> byte_step(port, reads) is Failed,
        reads.len() >= 1 && reads[0] is Err ==> count_step(low_port, high_port, reads) is Failed,
        reads.len() >= 2 && reads[1] is Err ==> count_step(low_port, high_port, reads) is Failed,
        byte_step(port, reads) matches Step::Failed(error) ==> reads[0] == Err::<u8, BusError>(
            error,
        ),
        count_step(low_port, high_port, reads) matches Step::Failed(error) ==> reads[0] == Err::<
            u8,
            BusError,
        >(error) || (reads.len() >= 2 && reads[1] == Err::<u8, BusError>(error)),
        byte_step(port, reads) matches Step::Done(byte) ==> reads.len() >= 1 && reads[0] == Ok::<
            u8,
            BusError,
        >(byte),
        count_step(low_port, high_port, reads) matches Step::Done(count) ==> {
            &&& reads.len() >= 2
            &&& reads[0] matches Ok(low)
            &&& reads[1] matches Ok(high)
            &&& count == tach_count(high, low)
        },
{
    if reads.len() >= 2 && reads[0] is Ok && reads[1] is Ok {
        lemma_tach_count_in_range(reads[1]->Ok_0, reads[0]->Ok_0);
    }
}

/// A byte that was read is passed on as it is, and two bytes that were read
/// give the count that they decode to, the first of them as the low byte.
pub proof fn lemma_good_reads_give_the_reading(
    port: u8,
    low_port: u8,
    high_port: u8,
    low: u8,
    high: u8,
)
    ensures
        byte_step(port, seq![Ok(low)]) == Step::<u8>::Done(low),
        count_step(low_port, high_port, seq![Ok(low), Ok(high)]) matches Step::Done(count)
            && count == tach_count(high, low),
{
    lemma_tach_count_in_range(high, low);
}

/// A tachometer accessor keeps nothing between calls, in the session or
/// elsewhere: whatever two calls of `fan_tac` return for the same reads, be
/// it on two sessions, is the same step. So it is with `fan_tac_tgt`.
pub proof fn lemma_accessors_are_repeatable<C>(
    one: &Emc2301<C>,
    other: &Emc2301<C>,
    reads: &[ReadOutcome],
    first: Step<u16>,
    second: Step<u16>,
)
    requires
        (call_ensures(Emc2301::<C>::fan_tac, (one, reads), first) && call_ensures(
            Emc2301::<C>::fan_tac,
            (other, reads),
            second,
        )) || (call_ensures(Emc2301::<C>::fan_tac_tgt, (one, reads), first) && call_ensures(
            Emc2301::<C>::fan_tac_tgt,
            (other, reads),
            second,
        )),
    ensures
        first == second,
{
}

} // verus!

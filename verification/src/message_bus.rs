use crate::config::MESSAGE_EXPIRATION_IN_SECONDS;
use std::time::{Duration, Instant};
use vstd::prelude::*;

verus! {

/// `std::time::Instant`, a reading of the monotonic clock. Nothing is known
/// of what a value of it holds.
#[verifier::external_type_specification]
#[verifier::external_body]
pub struct ExInstant(std::time::Instant);

/// Reads the monotonic clock, by `Instant::now`. Nothing is claimed of the
/// reading.
#[verifier::external_body]
fn clock_reading() -> Instant {
    Instant::now()
}

/// The time gone by since `origin`, by `Instant::elapsed`. Nothing is claimed
/// of it.
#[verifier::external_body]
fn elapsed_since(origin: &Instant) -> Duration {
    origin.elapsed()
}

/// A span of time in whole milliseconds, by `Duration::as_millis`. Nothing is
/// claimed of the number.
#[verifier::external_body]
fn whole_millis(span: &Duration) -> u128 {
    span.as_millis()
}

/// What a message bus holds, as plain values: the message, if any, the time
/// it was sent at and how long a message lives. Times are in milliseconds on
/// the bus's own clock.
pub struct BusView {
    pub text: Option<Seq<char>>,
    pub sent_at: u64,
    pub lifetime: u64,
}

impl BusView {
    /// Whether a message sent at `sent_at` has outlived its time at `now`.
    pub open spec fn expired_at(self, now: u64) -> bool {
        now > self.sent_at + self.lifetime
    }

    /// The bus after `text` is sent at `now`: the new message takes the one
    /// slot, whatever was in it.
    pub open spec fn sent(self, text: Seq<char>, now: u64) -> BusView {
        BusView { text: Some(text), sent_at: now, lifetime: self.lifetime }
    }

    /// The bus after a check at `now`: empty if the message has outlived its
    /// time, else as before.
    pub open spec fn checked(self, now: u64) -> BusView {
        if self.expired_at(now) {
            BusView { text: None, ..self }
        } else {
            self
        }
    }

    /// The bus after checks at `times`, in that order.
    pub open spec fn checked_all(self, times: Seq<u64>) -> BusView
        decreases times.len(),
    {
        if times.len() == 0 {
            self
        } else {
            self.checked_all(times.drop_last()).checked(times.last())
        }
    }
}

/// A message sent at `now` is readable after any run of checks none of which
/// came after `now` plus the lifetime, and gone after any run with a check
/// that did.
pub proof fn lemma_message_expires(bus: BusView, text: Seq<char>, now: u64, times: Seq<u64>)
    ensures
        bus.sent(text, now).checked_all(times).text == if forall|i: int|
            0 <= i < times.len() ==> times[i] <= now + bus.lifetime {
            Some(text)
        } else {
            None
        },
        bus.sent(text, now).checked_all(times).sent_at == now,
        bus.sent(text, now).checked_all(times).lifetime == bus.lifetime,
    decreases times.len(),
{
    if times.len() > 0 {
        let earlier = times.drop_last();
        lemma_message_expires(bus, text, now, earlier);
        assert(forall|i: int| 0 <= i < earlier.len() ==> earlier[i] == times[i]);
        if forall|i: int| 0 <= i < times.len() ==> times[i] <= now + bus.lifetime {
            assert(times.last() == times[times.len() - 1]);
        } else {
            if forall|i: int| 0 <= i < earlier.len() ==> earlier[i] <= now + bus.lifetime {
                assert(times[times.len() - 1] > now + bus.lifetime);
            }
        }
    }
}

/// A single slot for a transient status message. A message sent replaces the
/// one held; a check clears it once it has outlived its time.
pub struct MessageBus {
    message: Option<String>,
    last_updated: u64,
    expiration: u64,
    clock: Instant,
}

impl View for MessageBus {
    type V = BusView;

    closed spec fn view(&self) -> BusView {
        BusView {
            text: match self.message {
                Some(m) => Some(m@),
                None => None,
            },
            sent_at: self.last_updated,
            lifetime: self.expiration,
        }
    }
}

impl MessageBus {
    /// An empty bus whose messages live for the configured time, with a clock
    /// that starts now.
    pub fn new() -> (bus: MessageBus)
        ensures
            bus@.text is None,
            bus@.sent_at == 0,
            bus@.lifetime == MESSAGE_EXPIRATION_IN_SECONDS * 1000,
    {
        MessageBus {
            message: None,
            last_updated: 0,
            expiration: MESSAGE_EXPIRATION_IN_SECONDS * 1000,
            clock: clock_reading(),
        }
    }

    /// The time on the bus's clock, in milliseconds since the bus was made.
    pub fn now(&self) -> u64 {
        let span = elapsed_since(&self.clock);
        let millis: u128 = whole_millis(&span);
        if millis > 0xffff_ffff_ffff_ffff {
            u64::MAX
        } else {
            millis as u64
        }
    }

    /// Clears the message if the time `now` is past its deadline.
    pub fn check_at(&mut self, now: u64)
        ensures
            final(self)@ == old(self)@.checked(now),
    {
        if now > self.last_updated && now - self.last_updated > self.expiration {
            self.clear();
        }
    }

    /// Clears the message if the bus's clock is past its deadline: a check at
    /// the time that the clock gives, whatever that time is.
    pub fn check(&mut self)
        ensures
            exists|now: u64| final(self)@ == old(self)@.checked(now),
    {
        let now = self.now();
        self.check_at(now);
    }

    /// The message held, if any.
    pub fn read(&self) -> (text: Option<&str>)
        ensures
            text is Some == self@.text is Some,
            text matches Some(t) ==> self@.text == Some(t@),
    {
        match &self.message {
            Some(m) => Some(m.as_str()),
            None => None,
        }
    }

    /// Puts `message` in the slot at the time `now`, from which its lifetime
    /// counts.
    pub fn send_at(&mut self, message: String, now: u64)
        ensures
            final(self)@ == old(self)@.sent(message@, now),
    {
        self.message = Some(message);
        self.last_updated = now;
    }

    /// Puts `message` in the slot, with its lifetime counting from the time
    /// on the bus's clock.
    pub fn send(&mut self, message: String)
        ensures
            final(self)@.text == Some(message@),
            final(self)@.lifetime == old(self)@.lifetime,
    {
        let now = self.now();
        self.send_at(message, now);
    }

    /// Empties the slot.
    pub fn clear(&mut self)
        ensures
            final(self)@ == (BusView { text: None, ..old(self)@ }),
    {
        self.message = None;
    }
}

} // verus!

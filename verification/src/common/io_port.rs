//! An 8-bit I/O port: each bit is an input or an output by its direction bit.

use vstd::prelude::*;

verus! {

/// Receives the port's value whenever the port changes.
pub trait PortObserver {
    /// Called with the port's new value.
    fn notify(&self, value: u8);
}

/// The value seen on the pins: output bits where the direction bit is 1,
/// input bits where it is 0.
pub open spec fn port_value(direction: u8, input: u8, output: u8) -> u8 {
    (output & direction) | (input & !direction)
}

/// An I/O port with a direction register (1 = output, 0 = input).
pub struct IoPort {
    pub direction: u8,
    pub input: u8,
    pub output: u8,
    pub observer: Option<Box<dyn PortObserver>>,
    /// The values handed to the observer so far, oldest first.
    pub notified: Ghost<Seq<u8>>,
}

/// The port after it tells its observer, if it has one, the value on its
/// pins: the value joins the record of notifications once.
pub open spec fn noticed(p: IoPort) -> IoPort {
    if p.observer is Some {
        IoPort { notified: Ghost(p.notified@.push(p.value())), ..p }
    } else {
        p
    }
}

impl IoPort {
    /// The value seen on the pins.
    pub open spec fn value(&self) -> u8 {
        port_value(self.direction, self.input, self.output)
    }

    /// A port with the given direction and input levels and all outputs low.
    pub fn new(direction: u8, input: u8) -> (p: IoPort)
        ensures
            p.direction == direction,
            p.input == input,
            p.output == 0,
            p.observer is None,
            p.notified@ == Seq::<u8>::empty(),
    {
        IoPort { direction, input, output: 0, observer: None, notified: Ghost(Seq::empty()) }
    }

    /// The direction register.
    pub fn get_direction(&self) -> (r: u8)
        ensures
            r == self.direction,
    {
        self.direction
    }

    /// The value seen on the pins.
    pub fn get_value(&self) -> (r: u8)
        ensures
            r == self.value(),
    {
        (self.output & self.direction) | (self.input & !self.direction)
    }

    /// Sets the direction register and notifies the observer once.
    pub fn set_direction(&mut self, direction: u8)
        ensures
            *final(self) == noticed(IoPort { direction, ..*old(self) }),
    {
        self.direction = direction;
        self.notify_observer();
    }

    /// Sets the input levels and notifies the observer once.
    pub fn set_input(&mut self, value: u8)
        ensures
            *final(self) == noticed(IoPort { input: value, ..*old(self) }),
    {
        self.input = value;
        self.notify_observer();
    }

    /// Sets one input level and notifies the observer once.
    pub fn set_input_bit(&mut self, bit: usize, value: bool)
        requires
            bit < 8,
        ensures
            *final(self) == noticed(
                IoPort { input: crate::bits::with_bit_u8(old(self).input, bit as u8, value), ..*old(self) },
            ),
    {
        self.input = crate::bits::set_bit_u8(self.input, bit, value);
        self.notify_observer();
    }

    /// Installs the observer that is told every new value.
    pub fn set_observer(&mut self, observer: Box<dyn PortObserver>)
        ensures
            final(self).direction == old(self).direction,
            final(self).input == old(self).input,
            final(self).output == old(self).output,
            final(self).observer is Some,
            final(self).notified == old(self).notified,
    {
        self.observer = Some(observer);
    }

    /// Sets the output register and notifies the observer once, with the
    /// port's new value.
    pub fn set_value(&mut self, value: u8)
        ensures
            *final(self) == noticed(IoPort { output: value, ..*old(self) }),
    {
        self.output = value;
        self.notify_observer();
    }

    /// All pins become inputs pulled high, outputs low; the observer is
    /// notified once.
    pub fn reset(&mut self)
        ensures
            *final(self) == noticed(IoPort { direction: 0, input: 0xff, output: 0, ..*old(self) }),
            final(self).value() == 0xff,
    {
        self.direction = 0x00;
        self.input = 0xff;
        self.output = 0x00;
        assert(port_value(0, 0xff, 0) == 0xff) by (bit_vector);
        self.notify_observer();
    }

    fn notify_observer(&mut self)
        ensures
            *final(self) == noticed(*old(self)),
    {
        if let Some(ref observer) = self.observer {
            observer.notify(self.get_value());
            self.notified = Ghost(self.notified@.push(self.value()));
        }
    }
}

/// With every pin an output the port shows its output register; with
/// every pin an input it shows the input levels.
pub proof fn law_port_direction(input: u8, output: u8)
    ensures
        port_value(0xff, input, output) == output,
        port_value(0x00, input, output) == input,
{
    assert(port_value(0xff, input, output) == output && port_value(0x00, input, output) == input)
        by (bit_vector);
}

} // verus!

//! Failures that stop the control loop from starting or serving a request.
use vstd::prelude::*;
use vstd::string::*;
use crate::labels::{digit_char, decimal, push_decimal};

verus! {

/// Why the servo bus cannot be driven.
#[derive(Debug, Clone)]
pub enum MotorError {
    /// Some servos did not answer a ping; their labels.
    MissingMotors(Vec<String>),
    /// A request on the bus failed.
    CommunicationError(),
    /// No servo answered at all: the power supply is off.
    NoPowerError(),
    /// The lowest input voltage seen (0.1 V units) and the time waited.
    VoltageRampUpTimeoutError(u8, Wait),
    /// The serial port does not exist.
    PortNotFound(String),
    /// The serial port exists but could not be opened.
    CouldNotOpenPort(String),
}

/// A length of time: whole seconds and the nanoseconds past them.
#[derive(Debug, Clone, Copy)]
pub struct Wait {
    secs: u64,
    nanos: u32,
}

impl View for Wait {
    type V = (u64, u32);

    /// Seconds, then nanoseconds past them.
    closed spec fn view(&self) -> (u64, u32) {
        (self.secs, self.nanos)
    }
}

impl Wait {
    #[verifier::type_invariant]
    spec fn nanos_below_a_second(self) -> bool {
        self.nanos < 1_000_000_000
    }

    /// `secs` seconds and `nanos` nanoseconds.
    pub fn new(secs: u64, nanos: u32) -> (w: Wait)
        requires
            nanos < 1_000_000_000,
        ensures
            w@ == (secs, nanos),
    {
        Wait { secs, nanos }
    }

    /// Whole seconds.
    pub fn secs(&self) -> (secs: u64)
        ensures
            secs == self@.0,
    {
        self.secs
    }

    /// Nanoseconds past the whole seconds; always below one second.
    pub fn subsec_nanos(&self) -> (nanos: u32)
        ensures
            nanos == self@.1,
            nanos < 1_000_000_000,
    {
        proof {
            use_type_invariant(self);
        }
        self.nanos
    }
}

/// The texts of a list of strings.
pub open spec fn texts(strings: Seq<String>) -> Seq<Seq<char>> {
    strings.map_values(|s: String| s@)
}

/// std's `Debug` rendering of a list of strings, as `{:?}` prints a
/// `Vec<String>`: each string quoted and escaped, separated by `, `, inside
/// square brackets.
pub uninterp spec fn debug_text_of_strings(strings: Seq<Seq<char>>) -> Seq<char>;

/// Renders a list of strings with std's `Debug` (`format!("{:?}", ..)`).
/// The contract only names the text: how std quotes and escapes each string
/// is not written out.
#[verifier::external_body]
fn strings_debug_text(strings: &Vec<String>) -> (text: String)
    ensures
        text@ == debug_text_of_strings(texts(strings@)),
{
    format!("{:?}", strings)
}

/// std's `Debug` rendering of the `Duration` of `secs` seconds and `nanos`
/// nanoseconds, such as `30s` or `1.5ms`.
pub uninterp spec fn debug_text_of_duration(secs: u64, nanos: u32) -> Seq<char>;

/// Renders the `Duration` of `secs` seconds and `nanos` nanoseconds with
/// std's `Debug` (`format!("{:?}", Duration::new(secs, nanos))`). The
/// contract only names the text: std's choice of unit and decimals is not
/// written out. With `nanos` below one second `Duration::new` carries
/// nothing into the seconds and cannot panic.
#[verifier::external_body]
fn duration_debug_text(secs: u64, nanos: u32) -> (text: String)
    requires
        nanos < 1_000_000_000,
    ensures
        text@ == debug_text_of_duration(secs, nanos),
{
    format!("{:?}", std::time::Duration::new(secs, nanos))
}

/// A voltage in 0.1 V units written in volts with one decimal, as
/// `{:.1}` prints it: 105 is `10.5`.
pub open spec fn volts_text(tenths: u8) -> Seq<char> {
    decimal((tenths / 10) as nat) + seq!['.'] + seq![digit_char((tenths % 10) as nat)]
}

pub open spec fn missing_motors_text(names: Seq<String>) -> Seq<char> {
    "Missing motors: "@ + debug_text_of_strings(texts(names)) + "!"@
}

pub open spec fn communication_error_text() -> Seq<char> {
    "Motor communication error! Check connections and power supply."@
}

pub open spec fn no_power_text() -> Seq<char> {
    "No motors detected. Check if the power supply is connected and turned on!"@
}

pub open spec fn port_not_found_text(port: Seq<char>) -> Seq<char> {
    "Check if your USB cable is connected. Could not find port: "@ + port + "!"@
}

pub open spec fn could_not_open_port_text(port: Seq<char>) -> Seq<char> {
    "Could not open serial port: "@ + port
        + "! Check permissions and if the port is already in use."@
}

/// The start of the voltage time-out message, up to the time waited.
pub open spec fn voltage_timeout_head(tenths: u8) -> Seq<char> {
    "Voltage did not ramp up to 12V (got "@ + volts_text(tenths) + "V) within "@
}

impl MotorError {
    /// The message shown to users.
    pub fn message(&self) -> (text: String)
        ensures
            match self {
                MotorError::MissingMotors(names) => text@ == missing_motors_text(names@),
                MotorError::CommunicationError() => text@ == communication_error_text(),
                MotorError::NoPowerError() => text@ == no_power_text(),
                MotorError::VoltageRampUpTimeoutError(tenths, waited) => text@
                    == voltage_timeout_head(*tenths) + debug_text_of_duration(waited@.0, waited@.1)
                    + "!"@,
                MotorError::PortNotFound(port) => text@ == port_not_found_text(port@),
                MotorError::CouldNotOpenPort(port) => text@ == could_not_open_port_text(port@),
            },
    {
        match self {
            MotorError::MissingMotors(names) => {
                let mut text = "Missing motors: ".to_owned();
                let list = strings_debug_text(names);
                text.append(list.as_str());
                text.append("!");
                text
            },
            MotorError::CommunicationError() => {
                "Motor communication error! Check connections and power supply.".to_owned()
            },
            MotorError::NoPowerError() => {
                "No motors detected. Check if the power supply is connected and turned on!".to_owned()
            },
            MotorError::VoltageRampUpTimeoutError(tenths, waited) => {
                proof {
                    reveal_strlit(".");
                    reveal_strlit("!");
                }
                let mut text = "Voltage did not ramp up to 12V (got ".to_owned();
                push_decimal(&mut text, *tenths / 10);
                text.append(".");
                let ghost before_digit = text@;
                push_decimal(&mut text, *tenths % 10);
                assert(decimal((*tenths % 10) as nat) == seq![digit_char((*tenths % 10) as nat)]);
                text.append("V) within ");
                let ghost head = text@;
                assert(head == voltage_timeout_head(*tenths));
                let waited_text = duration_debug_text(waited.secs(), waited.subsec_nanos());
                text.append(waited_text.as_str());
                text.append("!");
                text
            },
            MotorError::PortNotFound(port) => {
                let mut text = "Check if your USB cable is connected. Could not find port: ".to_owned();
                text.append(port.as_str());
                text.append("!");
                text
            },
            MotorError::CouldNotOpenPort(port) => {
                let mut text = "Could not open serial port: ".to_owned();
                text.append(port.as_str());
                text.append("! Check permissions and if the port is already in use.");
                text
            },
        }
    }
}

} // verus!

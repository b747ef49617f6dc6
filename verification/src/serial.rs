//! The baud rates a link can run at, and the ports a host reports.

use vstd::prelude::*;
use vstd::string::StringExecFns;
use crate::err::{ErrorView, RSComError};
use crate::text::{decimal, str_eq};

verus! {

/// One of the supported link speeds.
///
/// The set is closed. Two members are equal when they are the same member;
/// the number of bits per second is derived from the member on demand.
#[derive(Debug, Clone, Copy, PartialEq, Eq, Structural)]
pub enum Baudrate {
    Baud9600,
    Baud19200,
    Baud38400,
    Baud57600,
    Baud115200,
    Baud230400,
    Baud460800,
    Baud921600,
    Baud1000000,
}

impl Baudrate {
    /// The canonical number of bits per second of a member.
    pub open spec fn bits_per_second(self) -> u32 {
        match self {
            Baudrate::Baud9600 => 9600,
            Baudrate::Baud19200 => 19200,
            Baudrate::Baud38400 => 38400,
            Baudrate::Baud57600 => 57600,
            Baudrate::Baud115200 => 115200,
            Baudrate::Baud230400 => 230400,
            Baudrate::Baud460800 => 460800,
            Baudrate::Baud921600 => 921600,
            Baudrate::Baud1000000 => 1000000,
        }
    }

    /// Every member once, in the order in which a selector offers them.
    pub open spec fn members() -> Seq<Baudrate> {
        seq![
            Baudrate::Baud9600,
            Baudrate::Baud19200,
            Baudrate::Baud38400,
            Baudrate::Baud57600,
            Baudrate::Baud115200,
            Baudrate::Baud230400,
            Baudrate::Baud460800,
            Baudrate::Baud921600,
            Baudrate::Baud1000000,
        ]
    }

    /// The place of a member in [`Baudrate::members`].
    pub open spec fn rank(self) -> nat {
        match self {
            Baudrate::Baud9600 => 0,
            Baudrate::Baud19200 => 1,
            Baudrate::Baud38400 => 2,
            Baudrate::Baud57600 => 3,
            Baudrate::Baud115200 => 4,
            Baudrate::Baud230400 => 5,
            Baudrate::Baud460800 => 6,
            Baudrate::Baud921600 => 7,
            Baudrate::Baud1000000 => 8,
        }
    }

    /// The name under which a member is stored.
    pub open spec fn stored_name(self) -> Seq<char> {
        match self {
            Baudrate::Baud9600 => "Baud9600"@,
            Baudrate::Baud19200 => "Baud19200"@,
            Baudrate::Baud38400 => "Baud38400"@,
            Baudrate::Baud57600 => "Baud57600"@,
            Baudrate::Baud115200 => "Baud115200"@,
            Baudrate::Baud230400 => "Baud230400"@,
            Baudrate::Baud460800 => "Baud460800"@,
            Baudrate::Baud921600 => "Baud921600"@,
            Baudrate::Baud1000000 => "Baud1000000"@,
        }
    }

    /// The member that a stored name stands for, if it is the name of one.
    pub open spec fn parse_name(name: Seq<char>) -> Option<Baudrate> {
        if exists|rate: Baudrate| rate.stored_name() == name {
            Some(choose|rate: Baudrate| rate.stored_name() == name)
        } else {
            None
        }
    }

    /// The member that a stored name stands for, and 115200 baud for any other text.
    pub open spec fn parse_name_or_default(name: Seq<char>) -> Baudrate {
        match Baudrate::parse_name(name) {
            Some(rate) => rate,
            None => Baudrate::Baud115200,
        }
    }

    /// All members, in selector order.
    pub fn all() -> (list: Vec<Baudrate>)
        ensures
            list@ == Baudrate::members(),
    {
        let list = vec![
            Baudrate::Baud9600,
            Baudrate::Baud19200,
            Baudrate::Baud38400,
            Baudrate::Baud57600,
            Baudrate::Baud115200,
            Baudrate::Baud230400,
            Baudrate::Baud460800,
            Baudrate::Baud921600,
            Baudrate::Baud1000000,
        ];
        list
    }

    /// The place of this member among all members, counted from zero.
    pub fn position(self) -> (index: usize)
        ensures
            index == self.rank(),
            index < Baudrate::members().len(),
            Baudrate::members()[index as int] == self,
    {
        match self {
            Baudrate::Baud9600 => 0,
            Baudrate::Baud19200 => 1,
            Baudrate::Baud38400 => 2,
            Baudrate::Baud57600 => 3,
            Baudrate::Baud115200 => 4,
            Baudrate::Baud230400 => 5,
            Baudrate::Baud460800 => 6,
            Baudrate::Baud921600 => 7,
            Baudrate::Baud1000000 => 8,
        }
    }

    /// The rate as text for display: its number of bits per second in decimal.
    pub fn to_string(&self) -> (text: String)
        ensures
            text@ == decimal(self.bits_per_second() as nat),
    {
        proof {
            lemma_decimal_literals();
        }
        match self {
            Baudrate::Baud9600 => String::from_str("9600"),
            Baudrate::Baud19200 => String::from_str("19200"),
            Baudrate::Baud38400 => String::from_str("38400"),
            Baudrate::Baud57600 => String::from_str("57600"),
            Baudrate::Baud115200 => String::from_str("115200"),
            Baudrate::Baud230400 => String::from_str("230400"),
            Baudrate::Baud460800 => String::from_str("460800"),
            Baudrate::Baud921600 => String::from_str("921600"),
            Baudrate::Baud1000000 => String::from_str("1000000"),
        }
    }

    /// The name under which this member is stored.
    pub fn name(self) -> (name: &'static str)
        ensures
            name@ == self.stored_name(),
    {
        match self {
            Baudrate::Baud9600 => "Baud9600",
            Baudrate::Baud19200 => "Baud19200",
            Baudrate::Baud38400 => "Baud38400",
            Baudrate::Baud57600 => "Baud57600",
            Baudrate::Baud115200 => "Baud115200",
            Baudrate::Baud230400 => "Baud230400",
            Baudrate::Baud460800 => "Baud460800",
            Baudrate::Baud921600 => "Baud921600",
            Baudrate::Baud1000000 => "Baud1000000",
        }
    }

    /// Reads a stored name back. Succeeds exactly on the names of the members.
    pub fn from_name(name: &str) -> (found: Option<Baudrate>)
        ensures
            found == Baudrate::parse_name(name@),
    {
        let found = if str_eq(name, "Baud9600") {
            Some(Baudrate::Baud9600)
        } else if str_eq(name, "Baud19200") {
            Some(Baudrate::Baud19200)
        } else if str_eq(name, "Baud38400") {
            Some(Baudrate::Baud38400)
        } else if str_eq(name, "Baud57600") {
            Some(Baudrate::Baud57600)
        } else if str_eq(name, "Baud115200") {
            Some(Baudrate::Baud115200)
        } else if str_eq(name, "Baud230400") {
            Some(Baudrate::Baud230400)
        } else if str_eq(name, "Baud460800") {
            Some(Baudrate::Baud460800)
        } else if str_eq(name, "Baud921600") {
            Some(Baudrate::Baud921600)
        } else if str_eq(name, "Baud1000000") {
            Some(Baudrate::Baud1000000)
        } else {
            None
        };
        proof {
            match found {
                Some(rate) => {
                    lemma_parse_name_exact(name@, rate);
                },
                None => {
                    assert forall|rate: Baudrate| name@ != #[trigger] rate.stored_name() by {}
                },
            }
        }
        found
    }

    /// Reads a stored name back, falling back to 115200 baud when the text
    /// names no member.
    pub fn from_name_or_default(name: &str) -> (rate: Baudrate)
        ensures
            rate == Baudrate::parse_name_or_default(name@),
    {
        match Baudrate::from_name(name) {
            Some(rate) => rate,
            None => Baudrate::Baud115200,
        }
    }
}

impl Default for Baudrate {
    /// 115200 baud.
    fn default() -> (rate: Baudrate)
        ensures
            rate == Baudrate::Baud115200,
    {
        Baudrate::Baud115200
    }
}

impl From<Baudrate> for u32 {
    fn from(rate: Baudrate) -> (n: u32) {
        match rate {
            Baudrate::Baud9600 => 9600,
            Baudrate::Baud19200 => 19200,
            Baudrate::Baud38400 => 38400,
            Baudrate::Baud57600 => 57600,
            Baudrate::Baud115200 => 115200,
            Baudrate::Baud230400 => 230400,
            Baudrate::Baud460800 => 460800,
            Baudrate::Baud921600 => 921600,
            Baudrate::Baud1000000 => 1000000,
        }
    }
}

impl vstd::std_specs::convert::FromSpecImpl<Baudrate> for u32 {
    open spec fn obeys_from_spec() -> bool {
        true
    }

    open spec fn from_spec(rate: Baudrate) -> u32 {
        rate.bits_per_second()
    }
}

/// One serial device that the host reports, identified by its name or path.
///
/// A descriptor is a snapshot: the host is asked anew every time, since
/// devices come and go.
#[derive(Debug, PartialEq, Eq)]
pub struct PortDescriptor {
    pub port_name: String,
}

impl View for PortDescriptor {
    type V = Seq<char>;

    open spec fn view(&self) -> Seq<char> {
        self.port_name@
    }
}

impl Clone for PortDescriptor {
    fn clone(&self) -> (copy: PortDescriptor)
        ensures
            copy@ == self@,
    {
        PortDescriptor { port_name: self.port_name.clone() }
    }
}

/// Turns what the host answered, when asked for its serial ports, into the
/// list of ports or the failure to report.
///
/// `query` is the host's answer: the names of the devices it sees, or the
/// reason why it could not be asked. On success every name becomes one
/// descriptor, in the host's order, which may change from call to call. On
/// failure the reason is passed on; nothing is retried.
pub fn list_serial_ports(query: Result<Vec<String>, String>) -> (found: Result<
    Vec<PortDescriptor>,
    RSComError,
>)
    ensures
        match query {
            Ok(names) => {
                &&& found matches Ok(ports)
                &&& ports@.len() == names@.len()
                &&& forall|i: int| 0 <= i < names@.len() ==> (#[trigger] ports@[i])@ == names@[i]@
            },
            Err(reason) => {
                &&& found matches Err(error)
                &&& error@ == ErrorView::ListPortsError(reason@)
            },
        },
{
    match query {
        Ok(names) => {
            let mut ports: Vec<PortDescriptor> = Vec::new();
            let mut i: usize = 0;
            while i < names.len()
                invariant
                    i <= names@.len(),
                    ports@.len() == i,
                    forall|k: int| 0 <= k < i ==> (#[trigger] ports@[k])@ == names@[k]@,
                decreases names@.len() - i,
            {
                ports.push(PortDescriptor { port_name: names[i].clone() });
                i += 1;
            }
            Ok(ports)
        },
        Err(reason) => Err(RSComError::ListPortsError(reason)),
    }
}

/// The decimal text of each supported rate.
proof fn lemma_decimal_literals()
    ensures
        "9600"@ == decimal(9600),
        "19200"@ == decimal(19200),
        "38400"@ == decimal(38400),
        "57600"@ == decimal(57600),
        "115200"@ == decimal(115200),
        "230400"@ == decimal(230400),
        "460800"@ == decimal(460800),
        "921600"@ == decimal(921600),
        "1000000"@ == decimal(1000000),
{
    reveal_with_fuel(decimal, 8);
    reveal_strlit("9600");
    reveal_strlit("19200");
    reveal_strlit("38400");
    reveal_strlit("57600");
    reveal_strlit("115200");
    reveal_strlit("230400");
    reveal_strlit("460800");
    reveal_strlit("921600");
    reveal_strlit("1000000");
}

/// What the stored names are, letter by letter.
proof fn lemma_stored_names()
    ensures
        "Baud9600"@.len() == 8,
        "Baud19200"@.len() == 9,
        "Baud38400"@.len() == 9,
        "Baud57600"@.len() == 9,
        "Baud115200"@.len() == 10,
        "Baud230400"@.len() == 10,
        "Baud460800"@.len() == 10,
        "Baud921600"@.len() == 10,
        "Baud1000000"@.len() == 11,
        "Baud9600"@[4] == '9',
        "Baud19200"@[4] == '1',
        "Baud38400"@[4] == '3',
        "Baud57600"@[4] == '5',
        "Baud115200"@[4] == '1',
        "Baud230400"@[4] == '2',
        "Baud460800"@[4] == '4',
        "Baud921600"@[4] == '9',
        "Baud1000000"@[4] == '1',
{
    reveal_strlit("Baud9600");
    reveal_strlit("Baud19200");
    reveal_strlit("Baud38400");
    reveal_strlit("Baud57600");
    reveal_strlit("Baud115200");
    reveal_strlit("Baud230400");
    reveal_strlit("Baud460800");
    reveal_strlit("Baud921600");
    reveal_strlit("Baud1000000");
}

/// No two members are stored under the same name.
pub proof fn lemma_stored_names_differ()
    ensures
        forall|a: Baudrate, b: Baudrate|
            #[trigger] a.stored_name() == #[trigger] b.stored_name() ==> a == b,
{
    lemma_stored_names();
}

/// Storing a rate and reading the name back gives the same rate.
pub proof fn lemma_name_round_trip(rate: Baudrate)
    ensures
        Baudrate::parse_name(rate.stored_name()) == Some(rate),
        Baudrate::parse_name_or_default(rate.stored_name()) == rate,
{
    lemma_stored_names_differ();
}

/// A text is read back as a rate exactly when it is that rate's stored name.
pub proof fn lemma_parse_name_exact(name: Seq<char>, rate: Baudrate)
    ensures
        Baudrate::parse_name(name) == Some(rate) <==> name == rate.stored_name(),
{
    lemma_stored_names_differ();
}

/// A text that is no member's stored name is read back as 115200 baud.
pub proof fn lemma_unknown_name_gives_default(name: Seq<char>)
    requires
        forall|rate: Baudrate| name != #[trigger] rate.stored_name(),
    ensures
        Baudrate::parse_name(name) is None,
        Baudrate::parse_name_or_default(name) == Baudrate::Baud115200,
{
}

/// The list of members names every member once.
pub proof fn lemma_members_complete(rate: Baudrate)
    ensures
        Baudrate::members().len() == 9,
        rate.rank() < 9,
        Baudrate::members()[rate.rank() as int] == rate,
        forall|i: int| 0 <= i < 9 && Baudrate::members()[i] == rate ==> i == rate.rank(),
{
}

/// Different members run at different speeds.
pub proof fn lemma_bits_per_second_injective(a: Baudrate, b: Baudrate)
    requires
        a.bits_per_second() == b.bits_per_second(),
    ensures
        a == b,
{
}

} // verus!

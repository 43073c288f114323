//! The errors of the registry and the text each is reported with.

use vstd::prelude::*;

verus! {

/// `std::io::Error`, which the errors below carry as the host gave it.
/// Nothing is read from it but the text that it prints.
#[verifier::external_type_specification]
#[verifier::external_body]
pub struct ExIoError(std::io::Error);

/// Calls `Display::fmt` of `std::io::Error`, through `format!`. The text
/// comes from the operating system, so nothing is claimed of it.
#[verifier::external_body]
fn io_error_display(e: &std::io::Error) -> (text: String) {
    format!("{}", e)
}

/// Calls `Debug::fmt` of `std::io::Error`, through `format!`. The text comes
/// from the operating system, so nothing is claimed of it.
#[verifier::external_body]
fn io_error_debug(e: &std::io::Error) -> (text: String) {
    format!("{:?}", e)
}

/// Why the host could not hand out a tap interface.
#[derive(Debug)]
pub enum TapError {
    /// The tap control device could not be opened.
    OpenTun(std::io::Error),
    /// The name is not one an interface can have.
    InvalidIfname,
    /// The host refused to bind the interface.
    IoctlError(std::io::Error),
}

/// Why a network device could not be constructed.
#[derive(Debug)]
pub enum DeviceError {
    /// Opening the tap interface failed.
    TapOpen(TapError),
    /// Setting the offload flags of the tap interface failed.
    TapSetOffload(TapError),
    /// Setting the header size of the tap interface failed.
    TapSetVnetHdrSize(TapError),
    /// An event descriptor could not be created.
    EventFd(std::io::Error),
}

/// Why a device of the machine could not be patched.
#[derive(Clone, Copy, Debug, PartialEq, Eq, Structural)]
pub enum VmmError {
    /// No interface has the id that the patch names.
    InterfaceNotFound,
    /// A virtual processor has left its run loop.
    VcpuExit,
}

/// Errors associated with the configuration of network interfaces.
#[derive(Debug)]
pub enum NetworkInterfaceError {
    /// Could not create the network device.
    CreateNetworkDevice(DeviceError),
    /// Failed to create a rate limiter.
    CreateRateLimiter(std::io::Error),
    /// The MAC address, given in its text form, is already in use.
    GuestMacAddressInUse(String),
    /// Error during interface update (patch).
    DeviceUpdate(VmmError),
    /// Cannot open or create the tap device.
    OpenTap(TapError),
}

/// The content of a [`NetworkInterfaceError`].
pub enum ErrorView {
    CreateNetworkDevice(DeviceError),
    CreateRateLimiter(std::io::Error),
    GuestMacAddressInUse(Seq<char>),
    DeviceUpdate(VmmError),
    OpenTap(TapError),
}

impl View for NetworkInterfaceError {
    type V = ErrorView;

    open spec fn view(&self) -> ErrorView {
        match *self {
            NetworkInterfaceError::CreateNetworkDevice(e) => ErrorView::CreateNetworkDevice(e),
            NetworkInterfaceError::CreateRateLimiter(e) => ErrorView::CreateRateLimiter(e),
            NetworkInterfaceError::GuestMacAddressInUse(mac) => ErrorView::GuestMacAddressInUse(
                mac@,
            ),
            NetworkInterfaceError::DeviceUpdate(e) => ErrorView::DeviceUpdate(e),
            NetworkInterfaceError::OpenTap(e) => ErrorView::OpenTap(e),
        }
    }
}

/// A text with every double quote taken out.
pub open spec fn without_quotes(text: Seq<char>) -> Seq<char> {
    text.filter(|c: char| c != '"')
}

/// Takes every double quote out of a text, so that the rest can stand inside
/// a quoted string.
pub fn strip_quotes(text: &str) -> (stripped: String)
    ensures
        stripped@ == without_quotes(text@),
        forall|i: int| 0 <= i < stripped@.len() ==> stripped@[i] != '"',
{
    let n = text.unicode_len();
    let mut stripped = String::new();
    let mut i: usize = 0;
    proof {
        reveal(Seq::filter);
        assert(text@.take(0) =~= Seq::<char>::empty());
    }
    while i < n
        invariant
            i <= n,
            n == text@.len(),
            stripped@ == without_quotes(text@.take(i as int)),
        decreases n - i,
    {
        let c = text.get_char(i);
        proof {
            reveal(Seq::filter);
            assert(text@.take(i + 1).drop_last() =~= text@.take(i as int));
            assert(text@.take(i + 1).last() == c);
        }
        if c != '"' {
            let one = text.substring_char(i, i + 1);
            assert(one@ =~= seq![c]);
            stripped.append(one);
            assert(stripped@ =~= without_quotes(text@.take(i as int)).push(c));
        }
        i += 1;
    }
    proof {
        assert(text@.take(n as int) =~= text@);
        assert forall|j: int| 0 <= j < stripped@.len() implies stripped@[j] != '"' by {
            text@.lemma_filter_pred(|c: char| c != '"', j);
        }
    }
    stripped
}

impl TapError {
    /// Whether the error carries one of the operating system.
    pub open spec fn has_io_error(self) -> bool {
        self is OpenTun || self is IoctlError
    }

    /// The error spelled out as a value, where `io` is the spelling of the
    /// operating system's error inside it.
    pub open spec fn debug_text(self, io: Seq<char>) -> Seq<char> {
        match self {
            TapError::OpenTun(_) => "OpenTun("@ + io + ")"@,
            TapError::InvalidIfname => "InvalidIfname"@,
            TapError::IoctlError(_) => "IoctlError("@ + io + ")"@,
        }
    }

    /// The spelling of the operating system's error inside, empty where there is none.
    fn io_debug(&self) -> (io: String)
        ensures
            !self.has_io_error() ==> io@ == Seq::<char>::empty(),
    {
        match self {
            TapError::OpenTun(e) => io_error_debug(e),
            TapError::InvalidIfname => String::new(),
            TapError::IoctlError(e) => io_error_debug(e),
        }
    }

    /// Spells the error out as a value, given the spelling of the operating
    /// system's error inside it.
    pub fn debug_string_with(&self, io: &str) -> (text: String)
        ensures
            text@ == self.debug_text(io@),
    {
        match self {
            TapError::OpenTun(_) => String::from_str("OpenTun(").concat(io).concat(")"),
            TapError::InvalidIfname => String::from_str("InvalidIfname"),
            TapError::IoctlError(_) => String::from_str("IoctlError(").concat(io).concat(")"),
        }
    }
}

impl DeviceError {
    /// Whether the error carries one of the operating system.
    pub open spec fn has_io_error(self) -> bool {
        match self {
            DeviceError::TapOpen(e) => e.has_io_error(),
            DeviceError::TapSetOffload(e) => e.has_io_error(),
            DeviceError::TapSetVnetHdrSize(e) => e.has_io_error(),
            DeviceError::EventFd(_) => true,
        }
    }

    /// The error spelled out as a value, where `io` is the spelling of the
    /// operating system's error inside it.
    pub open spec fn debug_text(self, io: Seq<char>) -> Seq<char> {
        match self {
            DeviceError::TapOpen(e) => "TapOpen("@ + e.debug_text(io) + ")"@,
            DeviceError::TapSetOffload(e) => "TapSetOffload("@ + e.debug_text(io) + ")"@,
            DeviceError::TapSetVnetHdrSize(e) => "TapSetVnetHdrSize("@ + e.debug_text(io) + ")"@,
            DeviceError::EventFd(_) => "EventFd("@ + io + ")"@,
        }
    }

    /// The spelling of the operating system's error inside, empty where there is none.
    fn io_debug(&self) -> (io: String)
        ensures
            !self.has_io_error() ==> io@ == Seq::<char>::empty(),
    {
        match self {
            DeviceError::TapOpen(e) => e.io_debug(),
            DeviceError::TapSetOffload(e) => e.io_debug(),
            DeviceError::TapSetVnetHdrSize(e) => e.io_debug(),
            DeviceError::EventFd(e) => io_error_debug(e),
        }
    }

    /// Spells the error out as a value, given the spelling of the operating
    /// system's error inside it.
    pub fn debug_string_with(&self, io: &str) -> (text: String)
        ensures
            text@ == self.debug_text(io@),
    {
        match self {
            DeviceError::TapOpen(e) => {
                let inner = e.debug_string_with(io);
                String::from_str("TapOpen(").concat(inner.as_str()).concat(")")
            },
            DeviceError::TapSetOffload(e) => {
                let inner = e.debug_string_with(io);
                String::from_str("TapSetOffload(").concat(inner.as_str()).concat(")")
            },
            DeviceError::TapSetVnetHdrSize(e) => {
                let inner = e.debug_string_with(io);
                String::from_str("TapSetVnetHdrSize(").concat(inner.as_str()).concat(")")
            },
            DeviceError::EventFd(_) => String::from_str("EventFd(").concat(io).concat(")"),
        }
    }
}

impl VmmError {
    /// The sentence that reports the error.
    pub open spec fn text(self) -> Seq<char> {
        match self {
            VmmError::InterfaceNotFound => "The network interface was not found."@,
            VmmError::VcpuExit => "The vCPU has exited."@,
        }
    }

    /// The sentence that reports the error.
    pub fn to_string(&self) -> (text: String)
        ensures
            text@ == self.text(),
    {
        match self {
            VmmError::InterfaceNotFound => String::from_str(
                "The network interface was not found.",
            ),
            VmmError::VcpuExit => String::from_str("The vCPU has exited."),
        }
    }
}

/// The report of a MAC address that another interface holds already.
pub open spec fn mac_in_use_message(mac: Seq<char>) -> Seq<char> {
    "The guest MAC address "@ + mac + " is already in use."@
}

impl NetworkInterfaceError {
    /// Whether the error carries one of the operating system, whose text the
    /// report then holds.
    pub open spec fn has_io_error(self) -> bool {
        match self {
            NetworkInterfaceError::CreateNetworkDevice(e) => e.has_io_error(),
            NetworkInterfaceError::CreateRateLimiter(_) => true,
            NetworkInterfaceError::GuestMacAddressInUse(_) => false,
            NetworkInterfaceError::DeviceUpdate(_) => false,
            NetworkInterfaceError::OpenTap(e) => e.has_io_error(),
        }
    }

    /// The report of the error, where `io` is the text of the operating
    /// system's error inside it. What a collaborator's error is spelled with
    /// goes into the report without its double quotes, whatever `io` holds,
    /// so that the report can stand inside a quoted string.
    pub open spec fn message(self, io: Seq<char>) -> Seq<char> {
        match self {
            NetworkInterfaceError::CreateNetworkDevice(e) => "Could not create Network Device: "@
                + without_quotes(e.debug_text(io)),
            NetworkInterfaceError::CreateRateLimiter(_) => "Cannot create RateLimiter: "@
                + without_quotes(io),
            NetworkInterfaceError::GuestMacAddressInUse(mac) => mac_in_use_message(mac@),
            NetworkInterfaceError::DeviceUpdate(e) => "Error during interface update (patch): "@
                + e.text(),
            NetworkInterfaceError::OpenTap(e) => "Cannot open TAP device. Invalid name/permissions. "@
                + without_quotes(e.debug_text(io)),
        }
    }

    /// The text of the operating system's error inside, in the form that the
    /// report uses; empty where there is none.
    fn io_text(&self) -> (io: String)
        ensures
            !self.has_io_error() ==> io@ == Seq::<char>::empty(),
    {
        match self {
            NetworkInterfaceError::CreateNetworkDevice(e) => e.io_debug(),
            NetworkInterfaceError::CreateRateLimiter(e) => io_error_display(e),
            NetworkInterfaceError::GuestMacAddressInUse(_) => String::new(),
            NetworkInterfaceError::DeviceUpdate(_) => String::new(),
            NetworkInterfaceError::OpenTap(e) => e.io_debug(),
        }
    }

    /// Writes the report of the error, given the text of the operating
    /// system's error inside it. The spelling of a collaborator's error may
    /// hold quoted text, which would break a report that is itself put between
    /// quotes: it is taken in without them.
    pub fn message_with(&self, io: &str) -> (text: String)
        ensures
            text@ == self.message(io@),
    {
        match self {
            NetworkInterfaceError::CreateNetworkDevice(e) => {
                let inner = e.debug_string_with(io);
                let device_err = strip_quotes(inner.as_str());
                String::from_str("Could not create Network Device: ").concat(
                    device_err.as_str(),
                )
            },
            NetworkInterfaceError::CreateRateLimiter(_) => {
                let limiter_err = strip_quotes(io);
                String::from_str("Cannot create RateLimiter: ").concat(limiter_err.as_str())
            },
            NetworkInterfaceError::GuestMacAddressInUse(mac) => String::from_str(
                "The guest MAC address ",
            ).concat(mac.as_str()).concat(" is already in use."),
            NetworkInterfaceError::DeviceUpdate(e) => {
                let inner = e.to_string();
                String::from_str("Error during interface update (patch): ").concat(inner.as_str())
            },
            NetworkInterfaceError::OpenTap(e) => {
                let inner = e.debug_string_with(io);
                let tap_err = strip_quotes(inner.as_str());
                String::from_str("Cannot open TAP device. Invalid name/permissions. ").concat(
                    tap_err.as_str(),
                )
            },
        }
    }

    /// The report of the error. Where the error carries one of the operating
    /// system, the report holds the text that the system gives for it.
    pub fn to_string(&self) -> (text: String)
        ensures
            exists|io: Seq<char>| text@ == #[trigger] self.message(io),
            !self.has_io_error() ==> text@ == self.message(Seq::empty()),
    {
        let io = self.io_text();
        let text = self.message_with(io.as_str());
        proof {
            assert(text@ == self.message(io@));
            if !self.has_io_error() {
                lemma_message_without_io_error(*self, io@, Seq::empty());
            }
        }
        text
    }
}

/// The report of an error that carries none of the operating system is the
/// same whatever text is given for one.
pub proof fn lemma_message_without_io_error(
    e: NetworkInterfaceError,
    io1: Seq<char>,
    io2: Seq<char>,
)
    requires
        !e.has_io_error(),
    ensures
        e.message(io1) == e.message(io2),
{
}

/// Whether a text holds no double quote.
pub open spec fn has_no_quotes(text: Seq<char>) -> bool {
    forall|i: int| 0 <= i < text.len() ==> text[i] != '"'
}

/// A text without its quotes holds none.
pub proof fn lemma_without_quotes(text: Seq<char>)
    ensures
        has_no_quotes(without_quotes(text)),
{
    assert forall|i: int| 0 <= i < without_quotes(text).len() implies without_quotes(text)[i]
        != '"' by {
        text.lemma_filter_pred(|c: char| c != '"', i);
    }
}

/// Two texts without quotes, one after the other, hold none.
pub proof fn lemma_joined_has_no_quotes(head: Seq<char>, tail: Seq<char>)
    requires
        has_no_quotes(head),
        has_no_quotes(tail),
    ensures
        has_no_quotes(head + tail),
{
    assert forall|i: int| 0 <= i < (head + tail).len() implies (head + tail)[i] != '"' by {
        if i < head.len() {
            assert((head + tail)[i] == head[i]);
        } else {
            assert((head + tail)[i] == tail[i - head.len()]);
        }
    }
}

/// Whatever the operating system's text holds, no report holds a double
/// quote, as long as the address of a `GuestMacAddressInUse` holds none.
pub proof fn lemma_report_has_no_quotes(e: NetworkInterfaceError, io: Seq<char>)
    requires
        e matches NetworkInterfaceError::GuestMacAddressInUse(mac) ==> has_no_quotes(mac@),
    ensures
        has_no_quotes(e.message(io)),
{
    match e {
        NetworkInterfaceError::CreateNetworkDevice(d) => {
            reveal_strlit("Could not create Network Device: ");
            lemma_without_quotes(d.debug_text(io));
            lemma_joined_has_no_quotes(
                "Could not create Network Device: "@,
                without_quotes(d.debug_text(io)),
            );
        },
        NetworkInterfaceError::CreateRateLimiter(_) => {
            reveal_strlit("Cannot create RateLimiter: ");
            lemma_without_quotes(io);
            lemma_joined_has_no_quotes("Cannot create RateLimiter: "@, without_quotes(io));
        },
        NetworkInterfaceError::GuestMacAddressInUse(mac) => {
            reveal_strlit("The guest MAC address ");
            reveal_strlit(" is already in use.");
            lemma_joined_has_no_quotes("The guest MAC address "@, mac@);
            lemma_joined_has_no_quotes("The guest MAC address "@ + mac@, " is already in use."@);
        },
        NetworkInterfaceError::DeviceUpdate(v) => {
            reveal_strlit("Error during interface update (patch): ");
            reveal_strlit("The network interface was not found.");
            reveal_strlit("The vCPU has exited.");
            lemma_joined_has_no_quotes("Error during interface update (patch): "@, v.text());
        },
        NetworkInterfaceError::OpenTap(t) => {
            reveal_strlit("Cannot open TAP device. Invalid name/permissions. ");
            lemma_without_quotes(t.debug_text(io));
            lemma_joined_has_no_quotes(
                "Cannot open TAP device. Invalid name/permissions. "@,
                without_quotes(t.debug_text(io)),
            );
        },
    }
}

} // verus!

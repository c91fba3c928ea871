//! gnome-keyring control-socket client - the GUI-free way to create/unlock the
//! login keyring.
//!
//! gnome-keyring's PAM module talks to the daemon's control socket at every
//! desktop login and sends the login password over a private binary protocol;
//! the daemon then *creates* the login keyring with that password if absent, or
//! *unlocks* it if present - no GUI involved. This is that client:
//!
//! - socket: `$GNOME_KEYRING_CONTROL/control`, else
//!   `$XDG_RUNTIME_DIR/keyring/control`
//! - credentials: one NUL byte (the server reads the peer uid with it and
//!   rejects other users)
//! - request: `[u32 BE total][u32 BE op=1][u32 BE pw_len][pw bytes]` - strings
//!   are length-prefixed, not NUL-terminated, and `total` counts itself
//! - reply: `[u32 BE total][u32 BE result]` with OK=0, DENIED=1, FAILED=2,
//!   NO_DAEMON=3
//!
//! The socket itself is driven by the caller: [`control_unlock`] says where to
//! connect and what to send, [`reply_body_len`] how much to read after the first
//! four bytes, and [`unlock_result`] what the answer means.

use vstd::prelude::*;

use crate::paths;
use crate::text;

verus! {

/// Control operation code for UNLOCK.
pub const OP_UNLOCK: u32 = 1;

/// Control result code: done.
pub const RESULT_OK: u32 = 0;

/// Control result code: the password was rejected.
pub const RESULT_DENIED: u32 = 1;

/// Bound on the reply that is read (the real reply is 8 bytes).
pub const MAX_REPLY: usize = 1024;

/// The byte that goes ahead of a request.
pub const CREDENTIALS: u8 = 0;

/// Outcome of a control-socket UNLOCK that the daemon actually answered.
#[derive(Debug, Clone, Copy, PartialEq, Eq, Structural)]
pub enum UnlockOutcome {
    /// The login keyring was created (was absent) or unlocked (was locked).
    Unlocked,
    /// The password was rejected - the login keyring exists and stays locked.
    Denied,
}

/// A control-socket UNLOCK could not be performed at all.
#[derive(Debug)]
pub struct Unavailable(pub String);

impl Unavailable {
    /// The user-facing text.
    pub fn message(&self) -> (r: String)
        ensures
            r@ == "gnome-keyring control socket unavailable: "@ + self.0@,
    {
        text::join2("gnome-keyring control socket unavailable: ", self.0.as_str())
    }
}

/// Where the control socket is: an explicit `$GNOME_KEYRING_CONTROL` directory
/// wins, else `$XDG_RUNTIME_DIR/keyring`.
pub open spec fn socket_at(
    control_dir: Option<Seq<char>>,
    runtime_dir: Option<Seq<char>>,
) -> Option<Seq<char>> {
    match (control_dir, runtime_dir) {
        (Some(dir), _) => Some(paths::joined(dir, "control"@)),
        (None, Some(dir)) => Some(paths::joined(paths::joined(dir, "keyring"@), "control"@)),
        (None, None) => None,
    }
}

/// A text that may be absent.
pub open spec fn optional_text(s: Option<&str>) -> Option<Seq<char>> {
    match s {
        Some(text) => Some(text@),
        None => None,
    }
}

/// Resolve the control socket path from the values of `GNOME_KEYRING_CONTROL`
/// and `XDG_RUNTIME_DIR`.
#[must_use]
pub fn control_path(control_dir: Option<&str>, runtime_dir: Option<&str>) -> (r: Option<String>)
    ensures
        match r {
            Some(path) => socket_at(optional_text(control_dir), optional_text(runtime_dir))
                == Some(path@),
            None => socket_at(optional_text(control_dir), optional_text(runtime_dir)) is None,
        },
{
    match control_dir {
        Some(dir) => Some(paths::join(dir, "control")),
        None => match runtime_dir {
            Some(dir) => {
                let keyring = paths::join(dir, "keyring");
                Some(paths::join(keyring.as_str(), "control"))
            },
            None => None,
        },
    }
}

/// Whether a control socket exists: `found` says whether there is something at
/// the resolved path, `None` where no path could be resolved.
#[must_use]
pub fn control_available(found: Option<bool>) -> (r: bool)
    ensures
        r == (found == Some(true)),
{
    match found {
        Some(there) => there,
        None => false,
    }
}

// ---------------------------------------------------------------------------
// Wire format
// ---------------------------------------------------------------------------
/// The four bytes of `n`, most significant first.
pub open spec fn be_bytes(n: u32) -> Seq<u8> {
    seq![
        (n / 0x100_0000) as u8,
        (n / 0x1_0000 % 0x100) as u8,
        (n / 0x100 % 0x100) as u8,
        (n % 0x100) as u8,
    ]
}

/// The number that four bytes encode, most significant first.
pub open spec fn be_number(b0: u8, b1: u8, b2: u8, b3: u8) -> int {
    b0 * 0x100_0000 + b1 * 0x1_0000 + b2 * 0x100 + b3
}

/// The low 32 bits of a length.
pub open spec fn length_field(n: nat) -> u32 {
    (n % 0x1_0000_0000) as u32
}

/// Four bytes encode one number, and it is the number they were made from.
pub proof fn number_survives_its_bytes(n: u32)
    ensures
        be_number(be_bytes(n)[0], be_bytes(n)[1], be_bytes(n)[2], be_bytes(n)[3]) == n,
        be_bytes(n).len() == 4,
{
    assert(n / 0x100_0000 < 0x100);
    assert(n == n / 0x100_0000 * 0x100_0000 + n / 0x1_0000 % 0x100 * 0x1_0000 + n / 0x100 % 0x100
        * 0x100 + n % 0x100) by (bit_vector);
}

/// Append the four bytes of `n`.
fn push_be(packet: &mut Vec<u8>, n: u32)
    ensures
        final(packet)@ == old(packet)@ + be_bytes(n),
{
    let b0: u8 = (n / 0x100_0000) as u8;
    let b1: u8 = (n / 0x1_0000 % 0x100) as u8;
    let b2: u8 = (n / 0x100 % 0x100) as u8;
    let b3: u8 = (n % 0x100) as u8;
    packet.push(b0);
    packet.push(b1);
    packet.push(b2);
    packet.push(b3);
    assert(packet@ =~= old(packet)@ + be_bytes(n));
}

/// The number that four bytes encode, most significant first.
fn read_be(b0: u8, b1: u8, b2: u8, b3: u8) -> (n: u32)
    ensures
        n == be_number(b0, b1, b2, b3),
{
    b0 as u32 * 0x100_0000 + b1 as u32 * 0x1_0000 + b2 as u32 * 0x100 + b3 as u32
}

/// The low 32 bits of a length.
fn low_bits(n: u128) -> (r: u32)
    ensures
        r == length_field(n as nat),
{
    let r: u32 = (n % 0x1_0000_0000) as u32;
    r
}

/// An UNLOCK request: see the module docs for the wire format.
pub open spec fn unlock_packet(password: Seq<u8>) -> Seq<u8> {
    be_bytes(length_field(12 + password.len())) + be_bytes(OP_UNLOCK) + be_bytes(
        length_field(password.len()),
    ) + password
}

/// Encode an UNLOCK request (see the module docs for the wire format).
pub fn encode_unlock(password: &[u8]) -> (packet: Vec<u8>)
    ensures
        packet@ == unlock_packet(password@),
{
    let len: usize = password.len();
    let mut packet: Vec<u8> = Vec::new();
    push_be(&mut packet, low_bits(12 + len as u128));
    push_be(&mut packet, OP_UNLOCK);
    push_be(&mut packet, low_bits(len as u128));
    let ghost head = packet@;
    for i in 0..len
        invariant
            len == password@.len(),
            packet@ == head + password@.take(i as int),
    {
        packet.push(password[i]);
        assert(packet@ =~= head + password@.take(i + 1));
    }
    assert(password@.take(len as int) =~= password@);
    assert(head =~= be_bytes(length_field(12 + password@.len())) + be_bytes(OP_UNLOCK) + be_bytes(
        length_field(password@.len()),
    ));
    packet
}

/// A request counts itself: where its length fits the length field, that field
/// gives the length of the whole request, and the password ends it.
pub proof fn request_counts_itself(password: Seq<u8>)
    requires
        12 + password.len() <= u32::MAX,
    ensures
        ({
            let packet = unlock_packet(password);
            &&& packet.len() == 12 + password.len()
            &&& be_number(packet[0], packet[1], packet[2], packet[3]) == packet.len()
            &&& packet.skip(12) == password
        }),
{
    let total = length_field(12 + password.len());
    number_survives_its_bytes(total);
    assert(unlock_packet(password).skip(12) =~= password);
}

// ---------------------------------------------------------------------------
// The exchange
// ---------------------------------------------------------------------------
/// What to do to unlock: connect to `path`, send the credentials byte, then the
/// packet.
pub struct UnlockRequest {
    pub path: String,
    pub packet: Vec<u8>,
}

/// Ask the running gnome-keyring daemon to create-or-unlock the login keyring
/// with `password`, over the control socket at `path` (`None` where none could
/// be resolved).
///
/// A password with a NUL is refused before anything is sent: the daemon treats
/// strings as C strings, and a NUL would silently truncate it on its side.
pub fn control_unlock(path: Option<String>, password: &str) -> (r: Result<
    UnlockRequest,
    Unavailable,
>)
    ensures
        ({
            let bytes = vstd::utf8::encode_utf8(password@);
            match r {
                Ok(request) => path == Some(request.path) && !bytes.contains(0u8)
                    && request.packet@ == unlock_packet(bytes),
                Err(e) => {
                    ||| path is None && e.0@
                        == "neither GNOME_KEYRING_CONTROL nor XDG_RUNTIME_DIR is set"@
                    ||| path is Some && bytes.contains(0u8) && e.0@
                        == "password contains a NUL byte"@
                },
            }
        }),
{
    let socket = match path {
        Some(socket) => socket,
        None => {
            return Err(
                Unavailable("neither GNOME_KEYRING_CONTROL nor XDG_RUNTIME_DIR is set".to_owned()),
            );
        },
    };
    let bytes = password.as_bytes();
    for i in 0..bytes.len()
        invariant
            path == Some(socket),
            bytes@ == vstd::utf8::encode_utf8(password@),
            forall|j: int| 0 <= j < i ==> bytes@[j] != 0u8,
    {
        if bytes[i] == 0 {
            assert(bytes@.contains(bytes@[i as int]));
            return Err(Unavailable("password contains a NUL byte".to_owned()));
        }
    }
    Ok(UnlockRequest { path: socket, packet: encode_unlock(bytes) })
}

/// The step of an exchange that failed.
#[derive(Debug, Clone, Copy, PartialEq, Eq, Structural)]
pub enum ControlStep {
    Connect,
    SetTimeout,
    SendCredentials,
    SendRequest,
    ReadLength,
    ReadBody,
}

/// What could not be done in a step.
pub open spec fn step_text(step: ControlStep, path: Seq<char>) -> Seq<char> {
    match step {
        ControlStep::Connect => "could not connect to "@ + path,
        ControlStep::SetTimeout => "could not set a reply timeout"@,
        ControlStep::SendCredentials => "could not send credentials byte"@,
        ControlStep::SendRequest => "could not send unlock request"@,
        ControlStep::ReadLength => "could not read reply length"@,
        ControlStep::ReadBody => "could not read reply body"@,
    }
}

/// The failure of a step, with its description.
pub fn step_failed(step: ControlStep, path: &str, cause: &str) -> (e: Unavailable)
    ensures
        e.0@ == step_text(step, path@) + ": "@ + cause@,
{
    let what = match step {
        ControlStep::Connect => text::join2("could not connect to ", path),
        ControlStep::SetTimeout => "could not set a reply timeout".to_owned(),
        ControlStep::SendCredentials => "could not send credentials byte".to_owned(),
        ControlStep::SendRequest => "could not send unlock request".to_owned(),
        ControlStep::ReadLength => "could not read reply length".to_owned(),
        ControlStep::ReadBody => "could not read reply body".to_owned(),
    };
    Unavailable(text::join3(what.as_str(), ": ", cause))
}

/// How many bytes of a reply follow its first four, which give the total. A
/// total that cannot hold a result, or is far too large, is refused.
pub fn reply_body_len(head: [u8; 4]) -> (r: Result<usize, Unavailable>)
    ensures
        ({
            let total = be_number(head[0], head[1], head[2], head[3]);
            match r {
                Ok(n) => 8 <= total <= MAX_REPLY && n == total - 4,
                Err(e) => !(8 <= total <= MAX_REPLY) && e.0@ == "nonsense reply length: "@
                    + text::decimal(total as nat),
            }
        }),
{
    let total: u32 = read_be(head[0], head[1], head[2], head[3]);
    if total < 8 || total as u64 > MAX_REPLY as u64 {
        let n = text::decimal_text(total as u64);
        return Err(Unavailable(text::join2("nonsense reply length: ", n.as_str())));
    }
    Ok(total as usize - 4)
}

/// What the body of a reply means. A wrong password is *not* an error: it comes
/// back as [`UnlockOutcome::Denied`] so the caller can re-prompt.
pub fn unlock_result(body: &Vec<u8>) -> (r: Result<UnlockOutcome, Unavailable>)
    requires
        body@.len() >= 4,
    ensures
        ({
            let code = be_number(body@[0], body@[1], body@[2], body@[3]);
            match r {
                Ok(UnlockOutcome::Unlocked) => code == RESULT_OK,
                Ok(UnlockOutcome::Denied) => code == RESULT_DENIED,
                Err(e) => code != RESULT_OK && code != RESULT_DENIED && e.0@
                    == "control result code "@ + text::decimal(code as nat)
                    + " (daemon refused or failed)"@,
            }
        }),
{
    let code: u32 = read_be(body[0], body[1], body[2], body[3]);
    if code == RESULT_OK {
        Ok(UnlockOutcome::Unlocked)
    } else if code == RESULT_DENIED {
        Ok(UnlockOutcome::Denied)
    } else {
        let n = text::decimal_text(code as u64);
        Err(
            Unavailable(
                text::join3("control result code ", n.as_str(), " (daemon refused or failed)"),
            ),
        )
    }
}

// ---------------------------------------------------------------------------
// Laws
// ---------------------------------------------------------------------------
/// The socket of an explicit control directory wins over that of the runtime directory,
/// in whose `keyring` directory it is otherwise; without either there is none.
pub proof fn control_directory_wins(
    control_dir: Option<&str>,
    runtime_dir: Option<&str>,
    r: Option<String>,
)
    requires
        call_ensures(control_path, (control_dir, runtime_dir), r),
    ensures
        r is None <==> control_dir is None && runtime_dir is None,
        control_dir matches Some(dir) ==> (dir@.len() > 0 && dir@.last() != '/' ==> (
        r matches Some(path) && path@ == dir@ + "/control"@)),
        control_dir is None ==> (runtime_dir matches Some(dir) ==> (dir@.len() > 0 && dir@.last()
            != '/' ==> (r matches Some(path) && path@ == dir@ + "/keyring/control"@))),
{
    reveal_strlit("/");
    reveal_strlit("control");
    reveal_strlit("/control");
    reveal_strlit("keyring");
    reveal_strlit("/keyring/control");
    if let Some(dir) = control_dir {
        assert(dir@ + "/"@ + "control"@ =~= dir@ + "/control"@);
    } else if let Some(dir) = runtime_dir {
        let inner = dir@ + "/"@ + "keyring"@;
        assert(inner.last() == "keyring"@[6]);
        assert(inner + "/"@ + "control"@ =~= dir@ + "/keyring/control"@);
    }
}

/// A request carries the password: it goes to the given socket, says in its three
/// numbers how long it is, that it is an unlock, and how long the password is, and ends
/// in the bytes of the password, none of which is NUL. A password with a NUL is refused.
pub proof fn request_carries_the_password(
    path: Option<String>,
    password: &str,
    r: Result<UnlockRequest, Unavailable>,
)
    requires
        call_ensures(control_unlock, (path, password), r),
    ensures
        ({
            let bytes = vstd::utf8::encode_utf8(password@);
            &&& r is Ok <==> path is Some && !bytes.contains(0u8)
            &&& r matches Ok(request) ==> {
                let packet = request.packet@;
                &&& Some(request.path) == path
                &&& packet.len() == 12 + bytes.len()
                &&& packet.skip(12) == bytes
                &&& be_number(packet[4], packet[5], packet[6], packet[7]) == 1
                &&& packet.len() <= u32::MAX ==> {
                    &&& be_number(packet[0], packet[1], packet[2], packet[3]) == packet.len()
                    &&& be_number(packet[8], packet[9], packet[10], packet[11]) == bytes.len()
                }
            }
        }),
{
    if let Ok(request) = r {
        let bytes = vstd::utf8::encode_utf8(password@);
        let packet = request.packet@;
        let total = be_bytes(length_field(12 + bytes.len()));
        let op = be_bytes(OP_UNLOCK);
        let len = be_bytes(length_field(bytes.len()));
        number_survives_its_bytes(length_field(12 + bytes.len()));
        number_survives_its_bytes(OP_UNLOCK);
        number_survives_its_bytes(length_field(bytes.len()));
        assert(packet == total + op + len + bytes);
        assert(packet[0] == total[0] && packet[1] == total[1] && packet[2] == total[2] && packet[3]
            == total[3]);
        assert(packet[4] == op[0] && packet[5] == op[1] && packet[6] == op[2] && packet[7]
            == op[3]);
        assert(packet[8] == len[0] && packet[9] == len[1] && packet[10] == len[2] && packet[11]
            == len[3]);
        assert(packet.skip(12) =~= bytes);
    }
}

/// A reply tells its result: of a reply with `total` bytes in all, four are read and the
/// rest is what is left to read, where that can hold a result and is no more than a
/// kilobyte; the first number of the rest is zero for an unlocked keyring, one for a wrong
/// password, and anything else a failure that names it.
pub proof fn reply_tells_its_result(
    total: u32,
    head: [u8; 4],
    left: Result<usize, Unavailable>,
    code: u32,
    body: &Vec<u8>,
    r: Result<UnlockOutcome, Unavailable>,
)
    requires
        head@ == be_bytes(total),
        call_ensures(reply_body_len, (head,), left),
        body@.len() >= 4,
        body@.take(4) == be_bytes(code),
        call_ensures(unlock_result, (body,), r),
    ensures
        left is Ok <==> 8 <= total <= 1024,
        left matches Ok(n) ==> n + 4 == total,
        code == 0 <==> r == Ok::<UnlockOutcome, Unavailable>(UnlockOutcome::Unlocked),
        code == 1 <==> r == Ok::<UnlockOutcome, Unavailable>(UnlockOutcome::Denied),
        r matches Err(e) ==> text::occurs_in(e.0@, text::decimal(code as nat)),
{
    number_survives_its_bytes(total);
    number_survives_its_bytes(code);
    assert(head@[0] == head[0] && head@[1] == head[1] && head@[2] == head[2] && head@[3]
        == head[3]);
    assert(body@.take(4)[0] == body@[0] && body@.take(4)[1] == body@[1] && body@.take(4)[2]
        == body@[2] && body@.take(4)[3] == body@[3]);
    text::part_occurs(
        "control result code "@,
        text::decimal(code as nat),
        " (daemon refused or failed)"@,
    );
}

/// The failure of a step tells the cause.
pub proof fn failed_step_tells_the_cause(
    step: ControlStep,
    path: &str,
    cause: &str,
    e: Unavailable,
)
    requires
        call_ensures(step_failed, (step, path, cause), e),
    ensures
        text::ends(e.0@, cause@),
        step == ControlStep::Connect ==> text::occurs_in(e.0@, path@),
{
    assert(e.0@ == (step_text(step, path@) + ": "@) + cause@);
    text::ends_split_the_text(e.0@, cause@);
    if step == ControlStep::Connect {
        assert(e.0@ =~= "could not connect to "@ + path@ + (": "@ + cause@));
        text::part_occurs("could not connect to "@, path@, ": "@ + cause@);
    }
}

} // verus!

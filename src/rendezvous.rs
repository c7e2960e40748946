//! The rendezvous record that advertises the listener to the external
//! notifier, and where its lockfile lives.

use crate::settings::{opt_view, Settings};
use vstd::prelude::*;
use vstd::utf8::encode_utf8;

verus! {

/// File name of the lockfile inside its directory.
pub const LOCKFILE_NAME: &'static str = "daylit-tray.lock";

/// ASCII digits of `n` in base ten, without leading zeros.
pub open spec fn decimal(n: nat) -> Seq<u8>
    decreases n,
{
    if n < 10 {
        seq![(48 + n) as u8]
    } else {
        decimal(n / 10).push((48 + n % 10) as u8)
    }
}

/// Appends the decimal digits of `n`.
pub fn push_decimal(out: &mut Vec<u8>, n: u32)
    ensures
        final(out)@ == old(out)@ + decimal(n as nat),
    decreases n,
{
    if n >= 10 {
        push_decimal(out, n / 10);
    }
    out.push((48 + n % 10) as u8);
    assert(final(out)@ =~= old(out)@ + decimal(n as nat));
}

/// What the lockfile advertises: the listener's port, the daemon's process
/// id and the shared secret.
pub struct RendezvousRecord {
    pub port: u16,
    pub pid: u32,
    pub secret: String,
}

/// The single line of the lockfile: `<port>|<pid>|<secret>`, no newline.
pub open spec fn lockfile_line(port: u16, pid: u32, secret: Seq<char>) -> Seq<u8> {
    decimal(port as nat) + seq![124u8] + decimal(pid as nat) + seq![124u8] + encode_utf8(secret)
}

impl RendezvousRecord {
    pub fn new(port: u16, pid: u32, secret: &str) -> (r: RendezvousRecord)
        ensures
            r.port == port,
            r.pid == pid,
            r.secret@ == secret@,
    {
        RendezvousRecord { port, pid, secret: secret.to_owned() }
    }

    /// The lockfile's contents, ASCII bytes.
    pub fn to_bytes(&self) -> (b: Vec<u8>)
        ensures
            b@ == lockfile_line(self.port, self.pid, self.secret@),
    {
        let mut out: Vec<u8> = Vec::new();
        push_decimal(&mut out, self.port as u32);
        out.push(124u8);
        push_decimal(&mut out, self.pid);
        out.push(124u8);
        let s = self.secret.as_str().as_bytes();
        let mut i: usize = 0;
        let ghost start = out@;
        while i < s.len()
            invariant
                0 <= i <= s@.len(),
                out@ == start + s@.subrange(0, i as int),
            decreases s@.len() - i,
        {
            out.push(s[i]);
            assert(s@.subrange(0, i + 1) =~= s@.subrange(0, i as int).push(s@[i as int]));
            i = i + 1;
        }
        assert(s@.subrange(0, s@.len() as int) =~= s@);
        assert(out@ =~= lockfile_line(self.port, self.pid, self.secret@));
        out
    }
}

/// The directory that holds the lockfile: the configured one, else the
/// platform's per-user configuration directory (`None` when the platform
/// offers none).
pub open spec fn lockfile_dir_of(
    configured: Option<Seq<char>>,
    default_dir: Option<Seq<char>>,
) -> Option<Seq<char>> {
    match configured {
        Some(d) => Some(d),
        None => default_dir,
    }
}

pub fn lockfile_dir(settings: &Settings, default_dir: Option<&str>) -> (r: Option<String>)
    ensures
        opt_view(r) == lockfile_dir_of(
            settings@.lockfile_dir,
            match default_dir {
                Some(d) => Some(d@),
                None => None,
            },
        ),
{
    match &settings.lockfile_dir {
        Some(d) => Some(d.clone()),
        None => match default_dir {
            Some(d) => Some(d.to_owned()),
            None => None,
        },
    }
}

} // verus!

//! The last known good address of the API, and the one-line text file that
//! keeps it across restarts.
//!
//! The cache never touches the disk itself. Loading takes what reading the
//! file gave, and an update hands back what is to be written and where.

use crate::endpoint::ApiEndpoint;
use crate::net::{lemma_number_text, number_text};
use crate::net::{lemma_text_round_trip, parse_socket_address, socket_address_text};
use crate::net::{IpAddress, SocketAddress};
use vstd::prelude::*;
use vstd::slice::slice_subrange;
use vstd::string::StringExecFns;

verus! {

/// The byte that ends the line in the cache file.
pub const LINE_FEED: u8 = 10;

/// Why no address could be loaded from the cache file.
#[derive(Clone, Copy, Debug, PartialEq, Eq, Structural)]
pub enum Error {
    /// The file could not be opened.
    Open,
    /// The file could not be read.
    Read,
    /// The file does not hold a socket address.
    Parse,
}

/// What reading the cache file gave.
#[derive(Debug)]
pub enum FileRead {
    /// The file could not be opened.
    Missing,
    /// The file was opened but could not be read.
    Unreadable,
    /// The bytes of the file.
    Contents(Vec<u8>),
}

/// A file to overwrite, with its new contents.
#[derive(Debug)]
pub struct CacheWrite {
    pub path: String,
    pub contents: Vec<u8>,
}

/// Whether `b` is white space: a blank, or one of the bytes from tab to
/// carriage return.
pub open spec fn is_space(b: u8) -> bool {
    b == 32 || (9 <= b && b <= 13)
}

/// `s` without the white space that it begins with.
pub open spec fn trim_start(s: Seq<u8>) -> Seq<u8>
    decreases s.len(),
{
    if s.len() > 0 && is_space(s[0]) {
        trim_start(s.drop_first())
    } else {
        s
    }
}

/// `s` without the white space that it ends with.
pub open spec fn trim_end(s: Seq<u8>) -> Seq<u8>
    decreases s.len(),
{
    if s.len() > 0 && is_space(s.last()) {
        trim_end(s.drop_last())
    } else {
        s
    }
}

/// `s` without the white space around it.
pub open spec fn trim(s: Seq<u8>) -> Seq<u8> {
    trim_end(trim_start(s))
}

/// The contents of the cache file for an address: its text and a line feed.
pub open spec fn cache_file_contents(addr: SocketAddress) -> Seq<u8> {
    socket_address_text(addr).push(LINE_FEED)
}

/// The address that a cache file with the given contents holds.
pub open spec fn address_in_file(contents: Seq<u8>) -> Option<SocketAddress> {
    parse_socket_address(trim(contents))
}

/// The address that loading gives for each outcome of reading the file.
pub open spec fn loaded_address(read: FileRead) -> Result<SocketAddress, Error> {
    match read {
        FileRead::Missing => Err(Error::Open),
        FileRead::Unreadable => Err(Error::Read),
        FileRead::Contents(bytes) => match address_in_file(bytes@) {
            Some(addr) => Ok(addr),
            None => Err(Error::Parse),
        },
    }
}

/// The abstract state of an address cache.
pub struct AddressCacheView {
    /// The address currently held.
    pub address: SocketAddress,
    /// The host that the address belongs to.
    pub hostname: Seq<char>,
    /// The file that updates are written to, if any.
    pub write_path: Option<Seq<char>>,
}

/// The best known address of one host, with the file to keep it in.
#[derive(Debug)]
pub struct AddressCache {
    address: SocketAddress,
    hostname: String,
    write_path: Option<String>,
}

impl View for AddressCache {
    type V = AddressCacheView;

    closed spec fn view(&self) -> AddressCacheView {
        AddressCacheView {
            address: self.address,
            hostname: self.hostname@,
            write_path: match self.write_path {
                Some(p) => Some(p@),
                None => None,
            },
        }
    }
}

/// The view of an optional path.
pub open spec fn path_view(path: Option<String>) -> Option<Seq<char>> {
    match path {
        Some(p) => Some(p@),
        None => None,
    }
}

/// Cuts the white space off both ends of `s`.
pub fn trim_bytes(s: &[u8]) -> (r: &[u8])
    ensures
        r@ == trim(s@),
{
    let mut lo: usize = 0;
    assert(s@.subrange(0, s.len() as int) =~= s@);
    while lo < s.len() && is_space_byte(s[lo])
        invariant
            lo <= s.len(),
            trim_start(s@) == trim_start(s@.subrange(lo as int, s.len() as int)),
        decreases s.len() - lo,
    {
        proof {
            let cur = s@.subrange(lo as int, s.len() as int);
            assert(cur[0] == s@[lo as int]);
            assert(cur.drop_first() =~= s@.subrange(lo + 1, s.len() as int));
        }
        lo = lo + 1;
    }
    proof {
        let cur = s@.subrange(lo as int, s.len() as int);
        if lo < s.len() {
            assert(cur[0] == s@[lo as int]);
        }
        assert(trim_start(s@) == cur);
    }
    let mut hi: usize = s.len();
    while hi > lo && is_space_byte(s[hi - 1])
        invariant
            lo <= hi <= s.len(),
            trim(s@) == trim_end(s@.subrange(lo as int, hi as int)),
        decreases hi - lo,
    {
        proof {
            let cur = s@.subrange(lo as int, hi as int);
            assert(cur.last() == s@[hi - 1]);
            assert(cur.drop_last() =~= s@.subrange(lo as int, hi - 1));
        }
        hi = hi - 1;
    }
    proof {
        let cur = s@.subrange(lo as int, hi as int);
        if hi > lo {
            assert(cur.last() == s@[hi - 1]);
        }
        assert(trim(s@) == cur);
    }
    slice_subrange(s, lo, hi)
}

fn is_space_byte(b: u8) -> (r: bool)
    ensures
        r == is_space(b),
{
    b == 32 || (9 <= b && b <= 13)
}

fn clone_path(path: &Option<String>) -> (r: Option<String>)
    ensures
        r == *path,
{
    match path {
        Some(p) => Some(p.clone()),
        None => None,
    }
}

impl Clone for AddressCache {
    fn clone(&self) -> (r: Self)
        ensures
            r@ == self@,
    {
        AddressCache {
            address: self.address,
            hostname: self.hostname.clone(),
            write_path: clone_path(&self.write_path),
        }
    }
}

impl AddressCache {
    /// A cache seeded with the address of `endpoint`, for the host of
    /// `endpoint`. Nothing is read from disk.
    pub fn new(endpoint: &ApiEndpoint, write_path: Option<String>) -> (r: Self)
        ensures
            r@ == (AddressCacheView {
                address: endpoint.address_view(),
                hostname: endpoint.host_view(),
                write_path: path_view(write_path),
            }),
    {
        AddressCache {
            address: endpoint.address(),
            hostname: String::from_str(endpoint.host()),
            write_path,
        }
    }

    /// A cache that holds the address found in the cache file.
    ///
    /// Fails when the file could not be opened or read, or when what it holds
    /// is no socket address once the white space around it is cut off.
    pub fn from_file(read: FileRead, write_path: Option<String>, hostname: String) -> (r: Result<
        Self,
        Error,
    >)
        ensures
            match r {
                Ok(cache) => loaded_address(read) == Ok::<SocketAddress, Error>(cache@.address)
                    && cache@.hostname == hostname@ && cache@.write_path == path_view(write_path),
                Err(e) => loaded_address(read) == Err::<SocketAddress, Error>(e),
            },
    {
        match read {
            FileRead::Missing => Err(Error::Open),
            FileRead::Unreadable => Err(Error::Read),
            FileRead::Contents(bytes) => {
                let text = trim_bytes(bytes.as_slice());
                match SocketAddress::parse(text) {
                    Some(address) => Ok(AddressCache { address, hostname, write_path }),
                    None => Err(Error::Parse),
                }
            },
        }
    }

    /// The address currently held.
    pub fn current(&self) -> (r: SocketAddress)
        ensures
            r == self@.address,
    {
        self.address
    }

    /// The host that the address belongs to.
    pub fn hostname(&self) -> (r: &str)
        ensures
            r@ == self@.hostname,
    {
        self.hostname.as_str()
    }

    /// The held address where `hostname` is the host of this cache, and
    /// nothing for any other host.
    pub fn resolve_hostname(&self, hostname: &str) -> (r: Option<SocketAddress>)
        ensures
            r == if hostname@ == self@.hostname {
                Some(self@.address)
            } else {
                None
            },
    {
        let asked = String::from_str(hostname);
        if asked == self.hostname {
            Some(self.address)
        } else {
            None
        }
    }

    /// Takes `address` as the current one. Where the cache has a file to
    /// write to, returns that file with its new contents; whether the write
    /// succeeds has no bearing on the address held.
    pub fn set_address(&mut self, address: SocketAddress) -> (r: Option<CacheWrite>)
        ensures
            final(self)@ == (AddressCacheView { address, ..old(self)@ }),
            match r {
                Some(write) => old(self)@.write_path == Some(write.path@) && write.contents@
                    == cache_file_contents(address),
                None => old(self)@.write_path is None,
            },
    {
        self.address = address;
        match &self.write_path {
            Some(path) => {
                let mut contents = address.to_text();
                contents.push(LINE_FEED);
                Some(CacheWrite { path: path.clone(), contents })
            },
            None => None,
        }
    }
}

/// The text of a socket address neither begins nor ends with white space.
proof fn lemma_text_has_no_margin(addr: SocketAddress)
    ensures
        socket_address_text(addr).len() > 0,
        !is_space(socket_address_text(addr)[0]),
        !is_space(socket_address_text(addr).last()),
{
    lemma_number_text(addr.port as nat, 10);
    let tp = number_text(addr.port as nat, 10);
    let s = socket_address_text(addr);
    assert(crate::net::digit_value(tp.last(), 10) is Some);
    match addr.ip {
        IpAddress::V4(a, b, c, d) => {
            lemma_number_text(a as nat, 10);
            let t0 = number_text(a as nat, 10);
            assert(crate::net::digit_value(t0[0], 10) is Some);
            assert(s[0] == t0[0]);
            assert(s.last() == tp.last());
        },
        IpAddress::V6(g0, g1, g2, g3, g4, g5, g6, g7) => {
            assert(s[0] == crate::net::OPEN_BRACKET);
            assert(s.last() == tp.last());
        },
    }
}

/// A cache file that holds what an update writes for an address loads as that
/// address.
pub proof fn lemma_written_address_loads(addr: SocketAddress, read: FileRead)
    requires
        read matches FileRead::Contents(bytes) && bytes@ == cache_file_contents(addr),
    ensures
        address_in_file(cache_file_contents(addr)) == Some(addr),
        loaded_address(read) == Ok::<SocketAddress, Error>(addr),
{
    let text = socket_address_text(addr);
    let file = cache_file_contents(addr);
    lemma_text_has_no_margin(addr);
    lemma_text_round_trip(addr);
    assert(file[0] == text[0]);
    assert(trim_start(file) == file);
    assert(file.last() == LINE_FEED);
    assert(file.drop_last() =~= text);
    assert(trim_end(file) == trim_end(text));
    assert(trim_end(text) == text);
}

} // verus!

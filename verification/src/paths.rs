//! Where the configuration lies. A path is a list of bytes.
use vstd::prelude::*;

verus! {

/// The bytes of a text.
pub open spec fn bytes_of(s: Seq<char>) -> Seq<u8> {
    vstd::utf8::encode_utf8(s)
}

/// A name in a directory. Nothing stands between the two where the directory
/// is empty or ends with a slash.
pub open spec fn in_dir(dir: Seq<u8>, name: Seq<u8>) -> Seq<u8> {
    if dir.len() == 0 || dir.last() == 0x2F {
        dir + name
    } else {
        dir.push(0x2F) + name
    }
}

/// A copy of some bytes.
pub fn copy_bytes(bytes: &[u8]) -> (r: Vec<u8>)
    ensures
        r@ == bytes@,
{
    let mut out: Vec<u8> = Vec::new();
    let mut i: usize = 0;
    while i < bytes.len()
        invariant
            i <= bytes.len(),
            out@ == bytes@.take(i as int),
        decreases bytes.len() - i,
    {
        out.push(bytes[i]);
        assert(bytes@.take(i + 1) == bytes@.take(i as int).push(bytes@[i as int]));
        i = i + 1;
    }
    assert(bytes@.take(bytes@.len() as int) == bytes@);
    out
}

/// A name in a directory.
pub fn join(dir: &Vec<u8>, name: &str) -> (r: Vec<u8>)
    ensures
        r@ == in_dir(dir@, bytes_of(name@)),
{
    let mut out = copy_bytes(dir.as_slice());
    if out.len() > 0 && out[out.len() - 1] != 0x2F {
        out.push(0x2F);
    }
    let mut rest = copy_bytes(name.as_bytes());
    out.append(&mut rest);
    out
}

/// The directory of the configuration: under `XDG_CONFIG_HOME`, where that is
/// set to anything, or else under `HOME`.
pub open spec fn config_dir_of(xdg: Option<Seq<u8>>, home: Option<Seq<u8>>) -> Option<Seq<u8>> {
    let mywm = bytes_of("mywm"@);
    if xdg is Some && xdg->0.len() > 0 {
        Some(in_dir(xdg->0, mywm))
    } else {
        match home {
            Some(h) => Some(in_dir(in_dir(h, bytes_of(".config"@)), mywm)),
            None => None,
        }
    }
}

/// What bytes that may be missing hold.
pub open spec fn bytes_view(b: Option<Vec<u8>>) -> Option<Seq<u8>> {
    match b {
        Some(v) => Some(v@),
        None => None,
    }
}

pub fn config_dir(xdg: &Option<Vec<u8>>, home: &Option<Vec<u8>>) -> (r: Option<Vec<u8>>)
    ensures
        bytes_view(r) == config_dir_of(bytes_view(*xdg), bytes_view(*home)),
{
    if let Some(dir) = xdg {
        if dir.len() > 0 {
            return Some(join(dir, "mywm"));
        }
    }
    match home {
        Some(h) => {
            let config = join(h, ".config");
            Some(join(&config, "mywm"))
        },
        None => None,
    }
}

/// A file in a directory that may be missing.
pub open spec fn file_in(dir: Option<Seq<u8>>, name: Seq<char>) -> Option<Seq<u8>> {
    match dir {
        Some(d) => Some(in_dir(d, bytes_of(name))),
        None => None,
    }
}

/// The configuration script.
pub fn rc_path(xdg: &Option<Vec<u8>>, home: &Option<Vec<u8>>) -> (r: Option<Vec<u8>>)
    ensures
        bytes_view(r) == file_in(config_dir_of(bytes_view(*xdg), bytes_view(*home)), "rc.lua"@),
{
    match config_dir(xdg, home) {
        Some(dir) => Some(join(&dir, "rc.lua")),
        None => None,
    }
}

/// The configuration file.
pub fn toml_path(xdg: &Option<Vec<u8>>, home: &Option<Vec<u8>>) -> (r: Option<Vec<u8>>)
    ensures
        bytes_view(r) == file_in(
            config_dir_of(bytes_view(*xdg), bytes_view(*home)),
            "config.toml"@,
        ),
{
    match config_dir(xdg, home) {
        Some(dir) => Some(join(&dir, "config.toml")),
        None => None,
    }
}

} // verus!

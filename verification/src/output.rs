//! What gets written where: the stdout report of each network, the files of each service
//! directory and their paths. Writing them is left to the caller.
use vstd::prelude::*;
use vstd::slice::{slice_subrange, slice_to_vec};
use vstd::utf8::encode_utf8;
use crate::encoding::{
    ascii_chars, base64_encode, decimal_bytes, decimal_string, spec_base64, spec_decimal,
};
use crate::i2p::I2pKeys;
use crate::tor::TorKeys;

verus! {

#[verifier::external_type_specification]
#[verifier::external_body]
pub struct ExPathBuf(std::path::PathBuf);

/// Where generated keys go.
pub enum OutputTarget {
    Stdout,
    Directory { path: std::path::PathBuf, overwrite: bool },
}

/// A file of a service directory: its name and its contents.
pub struct OutputFile {
    pub name: String,
    pub data: Vec<u8>,
}

/// One report line: a label, a value and a line feed.
pub open spec fn report_line(label: Seq<char>, value: Seq<char>) -> Seq<char> {
    label + value + "\n"@
}

/// The stdout report of Tor keys: a title line, the onion address, and the base64 of the secret
/// and public keys without their file headers.
pub open spec fn spec_tor_report(
    hostname: Seq<char>,
    secret_key_file: Seq<u8>,
    public_key_file: Seq<u8>,
) -> Seq<char> {
    "=== TOR ===\n"@ + report_line("onion: "@, hostname) + report_line(
        "secret_key (base64): "@,
        ascii_chars(spec_base64(secret_key_file.subrange(32, 96))),
    ) + report_line(
        "public_key (base64): "@,
        ascii_chars(spec_base64(public_key_file.subrange(32, 64))),
    )
}

/// The stdout report of I2P keys: a title line, the b32 address, and the base64 of the public
/// destination.
pub open spec fn spec_i2p_report(b32_address: Seq<char>, destination_dat: Seq<u8>) -> Seq<char> {
    "=== I2P ===\n"@ + report_line("b32: "@, b32_address) + report_line(
        "destination (base64): "@,
        ascii_chars(spec_base64(destination_dat.subrange(0, 391))),
    )
}

/// The text that Tor keys are printed as on stdout.
pub fn tor_report(keys: &TorKeys) -> (r: String)
    ensures
        r@ == spec_tor_report(keys.hostname@, keys.secret_key_file@, keys.public_key_file@),
{
    let secret = base64_encode(slice_subrange(keys.secret_key_file.as_slice(), 32, 96));
    let public = base64_encode(slice_subrange(keys.public_key_file.as_slice(), 32, 64));
    let mut out = "=== TOR ===\n".to_owned();
    out.append("onion: ");
    out.append(keys.hostname.as_str());
    out.append("\n");
    out.append("secret_key (base64): ");
    out.append(secret.as_str());
    out.append("\n");
    out.append("public_key (base64): ");
    out.append(public.as_str());
    out.append("\n");
    proof {
        assert(out@ =~= spec_tor_report(
            keys.hostname@,
            keys.secret_key_file@,
            keys.public_key_file@,
        ));
    }
    out
}

/// The text that I2P keys are printed as on stdout.
pub fn i2p_report(keys: &I2pKeys) -> (r: String)
    requires
        keys.destination_dat@.len() >= 391,
    ensures
        r@ == spec_i2p_report(keys.b32_address@, keys.destination_dat@),
{
    let public = base64_encode(slice_subrange(keys.destination_dat.as_slice(), 0, 391));
    let mut out = "=== I2P ===\n".to_owned();
    out.append("b32: ");
    out.append(keys.b32_address.as_str());
    out.append("\n");
    out.append("destination (base64): ");
    out.append(public.as_str());
    out.append("\n");
    proof {
        assert(out@ =~= spec_i2p_report(keys.b32_address@, keys.destination_dat@));
    }
    out
}

/// The files of a Tor service directory, in the order they are written.
pub fn tor_files(keys: &TorKeys) -> (r: Vec<OutputFile>)
    ensures
        r@.len() == 3,
        r@[0].name@ == "hs_ed25519_secret_key"@,
        r@[0].data@ == keys.secret_key_file@,
        r@[1].name@ == "hs_ed25519_public_key"@,
        r@[1].data@ == keys.public_key_file@,
        r@[2].name@ == "hostname"@,
        r@[2].data@ == encode_utf8(keys.hostname@),
{
    let mut files: Vec<OutputFile> = Vec::new();
    files.push(
        OutputFile {
            name: "hs_ed25519_secret_key".to_owned(),
            data: slice_to_vec(keys.secret_key_file.as_slice()),
        },
    );
    files.push(
        OutputFile {
            name: "hs_ed25519_public_key".to_owned(),
            data: slice_to_vec(keys.public_key_file.as_slice()),
        },
    );
    files.push(
        OutputFile { name: "hostname".to_owned(), data: slice_to_vec(keys.hostname.as_str().as_bytes()) },
    );
    files
}

/// The files of an I2P service directory, in the order they are written.
pub fn i2p_files(keys: &I2pKeys) -> (r: Vec<OutputFile>)
    ensures
        r@.len() == 2,
        r@[0].name@ == "destination.dat"@,
        r@[0].data@ == keys.destination_dat@,
        r@[1].name@ == "destination.b32.i2p"@,
        r@[1].data@ == encode_utf8(keys.b32_address@),
{
    let mut files: Vec<OutputFile> = Vec::new();
    files.push(
        OutputFile {
            name: "destination.dat".to_owned(),
            data: slice_to_vec(keys.destination_dat.as_slice()),
        },
    );
    files.push(
        OutputFile {
            name: "destination.b32.i2p".to_owned(),
            data: slice_to_vec(keys.b32_address.as_str().as_bytes()),
        },
    );
    files
}

/// `Path::join` on the bytes of Unix paths: a part that starts with `/` replaces the path;
/// otherwise a `/` goes between them unless the path is empty or already ends in `/`.
pub open spec fn spec_join_bytes(base: Seq<u8>, part: Seq<u8>) -> Seq<u8> {
    if part.len() > 0 && part[0] == 47u8 {
        part
    } else if base.len() == 0 || base.last() == 47u8 {
        base + part
    } else {
        base + seq![47u8] + part
    }
}

/// Join `part` onto the path `path`, as `PathBuf::push` does on Unix.
fn push_path_bytes(path: &mut Vec<u8>, part: &[u8])
    ensures
        final(path)@ == spec_join_bytes(old(path)@, part@),
{
    if part.len() > 0 && part[0] == 47u8 {
        path.clear();
        path.extend_from_slice(part);
        assert(path@ =~= part@);
    } else {
        let ghost start = path@;
        let n = path.len();
        if n > 0 && path[n - 1] != 47u8 {
            path.push(47u8);
        }
        path.extend_from_slice(part);
        assert(path@ =~= spec_join_bytes(start, part@));
    }
}

/// The directory that a network's files go to, as the bytes of a Unix path: the output directory
/// `base` joined with the network's name, with a subdirectory named by the epoch in decimal in
/// between unless existing files are overwritten.
pub fn service_dir(base: &[u8], epoch: u64, network: &str, overwrite: bool) -> (r: Vec<u8>)
    ensures
        overwrite ==> r@ == spec_join_bytes(base@, encode_utf8(network@)),
        !overwrite ==> r@ == spec_join_bytes(
            spec_join_bytes(base@, spec_decimal(epoch as nat)),
            encode_utf8(network@),
        ),
{
    let mut path = slice_to_vec(base);
    if !overwrite {
        let digits = decimal_bytes(epoch);
        push_path_bytes(&mut path, digits.as_slice());
    }
    push_path_bytes(&mut path, network.as_bytes());
    path
}

/// `Path::join` of a relative component onto a path, on text: a `/` goes between them unless the
/// path is empty or already ends in `/`.
pub open spec fn spec_path_join(base: Seq<char>, part: Seq<char>) -> Seq<char> {
    if base.len() == 0 {
        part
    } else if base.last() == '/' {
        base + part
    } else {
        base + seq!['/'] + part
    }
}

/// The path reported for an epoch's keys: the output directory itself when files are
/// overwritten, otherwise its subdirectory named by the epoch.
pub fn epoch_path(base: &str, epoch: u64, overwrite: bool) -> (r: Option<String>)
    ensures
        r is Some,
        overwrite ==> r->0@ == base@,
        !overwrite ==> r->0@ == spec_path_join(base@, ascii_chars(spec_decimal(epoch as nat))),
{
    let mut path = base.to_owned();
    if overwrite {
        return Some(path);
    }
    let n = base.unicode_len();
    if n > 0 && base.get_char(n - 1) != '/' {
        path.append("/");
        proof {
            reveal_strlit("/");
        }
    }
    let digits = decimal_string(epoch);
    path.append(digits.as_str());
    Some(path)
}

} // verus!

use vstd::prelude::*;
use vstd::bytes::{spec_u64_from_le_bytes, spec_u64_to_le_bytes, u64_from_le_bytes};
use vstd::slice::slice_subrange;

use crate::path::{joined, FilePath, PathModel};
use crate::text::{hex_text, is_hex_digit, lemma_radix_text_injective, lemma_radix_text_shape, push_hex};

verus! {

/// Length of the footer at the end of a portable executable: eight magic
/// bytes, then the lengths of the packed application and of the packed
/// library, each as a little-endian u64.
pub const FOOTER_LEN: usize = 24;

/// Why a portable executable could not be unpacked.
#[derive(Debug, Clone, Copy, PartialEq, Eq, Structural)]
pub enum LauncherError {
    /// The data is shorter than a footer.
    PayloadMissing,
    /// The footer does not start with the magic bytes.
    PayloadInvalid,
    /// The footer names more payload than precedes it.
    PayloadTruncated,
}

impl LauncherError {
    /// The text of the error.
    pub fn message(&self) -> (r: String)
        ensures
            r@ == match self {
                LauncherError::PayloadMissing => "portable payload is missing"@,
                LauncherError::PayloadInvalid => "portable payload is invalid"@,
                LauncherError::PayloadTruncated => "portable payload is truncated"@,
            },
    {
        match self {
            LauncherError::PayloadMissing => String::from_str("portable payload is missing"),
            LauncherError::PayloadInvalid => String::from_str("portable payload is invalid"),
            LauncherError::PayloadTruncated => String::from_str("portable payload is truncated"),
        }
    }
}

/// Where the packed application and library lie in the executable's bytes:
/// the application at `payload_start..dll_start`, the library at
/// `dll_start..footer_start`.
#[derive(Debug, Clone, Copy, PartialEq, Eq, Structural)]
pub struct PayloadLayout {
    pub payload_start: usize,
    pub dll_start: usize,
    pub footer_start: usize,
}

/// The magic bytes "WPGIFPK1" that open the footer.
pub open spec fn footer_magic() -> Seq<u8> {
    seq![0x57u8, 0x50u8, 0x47u8, 0x49u8, 0x46u8, 0x50u8, 0x4bu8, 0x31u8]
}

/// What `read_footer` gives for `data`: the two payload lengths that the
/// footer at its end records.
pub open spec fn footer_model(data: Seq<u8>) -> Result<(usize, usize), LauncherError> {
    if data.len() < FOOTER_LEN {
        Err(LauncherError::PayloadMissing)
    } else {
        let start = data.len() - FOOTER_LEN;
        if data.subrange(start, start + 8) != footer_magic() {
            Err(LauncherError::PayloadInvalid)
        } else {
            Ok((
                spec_u64_from_le_bytes(data.subrange(start + 8, start + 16)) as usize,
                spec_u64_from_le_bytes(data.subrange(start + 16, start + 24)) as usize,
            ))
        }
    }
}

/// What `payload_layout` gives for data of length `data_len` whose footer
/// records the lengths `app_len` and `dll_len`.
pub open spec fn layout_model(data_len: nat, app_len: nat, dll_len: nat) -> Result<PayloadLayout, LauncherError> {
    let footer_start = data_len - FOOTER_LEN;
    if footer_start < app_len + dll_len {
        Err(LauncherError::PayloadTruncated)
    } else {
        Ok(PayloadLayout {
            payload_start: (footer_start - app_len - dll_len) as usize,
            dll_start: (footer_start - dll_len) as usize,
            footer_start: footer_start as usize,
        })
    }
}

fn magic_byte(i: usize) -> (b: u8)
    requires
        i < 8,
    ensures
        b == footer_magic()[i as int],
{
    match i {
        0 => 0x57,
        1 => 0x50,
        2 => 0x47,
        3 => 0x49,
        4 => 0x46,
        5 => 0x50,
        6 => 0x4b,
        _ => 0x31,
    }
}

/// Reads the footer at the end of a portable executable: the lengths of the
/// packed application and of the packed library.
pub fn read_footer(data: &[u8]) -> (r: Result<(usize, usize), LauncherError>)
    ensures
        r == footer_model(data@),
{
    if data.len() < FOOTER_LEN {
        return Err(LauncherError::PayloadMissing);
    }
    let footer_start = data.len() - FOOTER_LEN;
    let mut i: usize = 0;
    while i < 8
        invariant
            footer_start + FOOTER_LEN == data@.len() == data.len(),
            i <= 8,
            forall|j: int| 0 <= j < i ==> data@[footer_start + j] == footer_magic()[j],
        decreases 8 - i,
    {
        if data[footer_start + i] != magic_byte(i) {
            assert(data@.subrange(footer_start as int, footer_start + 8)[i as int] != footer_magic()[i as int]);
            return Err(LauncherError::PayloadInvalid);
        }
        i = i + 1;
    }
    assert(data@.subrange(footer_start as int, footer_start + 8) =~= footer_magic());
    let app_len = u64_from_le_bytes(slice_subrange(data, footer_start + 8, footer_start + 16));
    let dll_len = u64_from_le_bytes(slice_subrange(data, footer_start + 16, footer_start + 24));
    Ok((#[verifier::truncate] (app_len as usize), #[verifier::truncate] (dll_len as usize)))
}

/// Places the payload that the footer describes: the application ends where
/// the library starts, and the library ends where the footer starts.
pub fn payload_layout(data_len: usize, app_len: usize, dll_len: usize) -> (r: Result<PayloadLayout, LauncherError>)
    requires
        data_len >= FOOTER_LEN,
        app_len + dll_len <= usize::MAX,
    ensures
        r == layout_model(data_len as nat, app_len as nat, dll_len as nat),
{
    let footer_start = data_len - FOOTER_LEN;
    let payload_len = app_len + dll_len;
    if footer_start < payload_len {
        return Err(LauncherError::PayloadTruncated);
    }
    let payload_start = footer_start - payload_len;
    Ok(PayloadLayout { payload_start, dll_start: payload_start + app_len, footer_start })
}

/// The name of the folder that holds one unpacked payload: both lengths in
/// lower-case hexadecimal, joined by '-'.
pub open spec fn payload_dir_name(app_len: nat, dll_len: nat) -> Seq<char> {
    hex_text(app_len) + seq!['-'] + hex_text(dll_len)
}

/// "webptogif-portable", the folder under the temporary folder that holds
/// unpacked payloads.
pub open spec fn portable_folder_name() -> Seq<char> {
    seq!['w', 'e', 'b', 'p', 't', 'o', 'g', 'i', 'f', '-', 'p', 'o', 'r', 't', 'a', 'b', 'l', 'e']
}

/// The folder, under the temporary folder `temp_dir`, into which the
/// payload with these lengths is unpacked.
pub fn payload_dir(temp_dir: &FilePath, app_len: usize, dll_len: usize) -> (r: FilePath)
    ensures
        r@ == joined(
            joined(temp_dir@, portable_folder_name()),
            payload_dir_name(app_len as nat, dll_len as nat),
        ),
{
    proof {
        reveal_strlit("webptogif-portable");
        reveal_strlit("-");
    }
    let folder = "webptogif-portable";
    assert(folder@ =~= portable_folder_name());
    let mut name = String::new();
    push_hex(&mut name, app_len as u64);
    name.append("-");
    push_hex(&mut name, dll_len as u64);
    assert(name@ =~= payload_dir_name(app_len as nat, dll_len as nat));
    temp_dir.join_name(folder).join_name(name.as_str())
}

/// Law: payloads of different lengths are unpacked into different folders:
/// the folder's name gives both lengths back.
pub proof fn law_payload_dir_names_distinct(app_a: nat, dll_a: nat, app_b: nat, dll_b: nat)
    requires
        payload_dir_name(app_a, dll_a) == payload_dir_name(app_b, dll_b),
    ensures
        app_a == app_b,
        dll_a == dll_b,
{
    let ha = hex_text(app_a);
    let hb = hex_text(app_b);
    let name = payload_dir_name(app_a, dll_a);
    lemma_radix_text_shape(app_a, 16);
    lemma_radix_text_shape(app_b, 16);
    lemma_radix_text_shape(dll_a, 16);
    lemma_radix_text_shape(dll_b, 16);
    assert(name[ha.len() as int] == '-');
    assert(payload_dir_name(app_b, dll_b)[hb.len() as int] == '-');
    if ha.len() < hb.len() {
        assert(payload_dir_name(app_b, dll_b)[ha.len() as int] == hb[ha.len() as int]);
        assert(is_hex_digit(hb[ha.len() as int]));
    } else if hb.len() < ha.len() {
        assert(name[hb.len() as int] == ha[hb.len() as int]);
        assert(is_hex_digit(ha[hb.len() as int]));
    }
    assert(ha.len() == hb.len());
    assert(name.take(ha.len() as int) =~= ha);
    assert(payload_dir_name(app_b, dll_b).take(hb.len() as int) =~= hb);
    lemma_radix_text_injective(app_a, app_b, 16);
    assert(name.skip(ha.len() as int + 1) =~= hex_text(dll_a));
    assert(payload_dir_name(app_b, dll_b).skip(hb.len() as int + 1) =~= hex_text(dll_b));
    lemma_radix_text_injective(dll_a, dll_b, 16);
}

/// Law: a footer written for the lengths `app_len` and `dll_len` after any
/// bytes is read back as those lengths.
pub proof fn law_footer_round_trip(prefix: Seq<u8>, app_len: u64, dll_len: u64)
    ensures
        footer_model(
            prefix + footer_magic() + spec_u64_to_le_bytes(app_len) + spec_u64_to_le_bytes(dll_len),
        ) == Ok::<(usize, usize), LauncherError>((app_len as usize, dll_len as usize)),
{
    vstd::bytes::lemma_auto_spec_u64_to_from_le_bytes();
    let a = spec_u64_to_le_bytes(app_len);
    let d = spec_u64_to_le_bytes(dll_len);
    let data = prefix + footer_magic() + a + d;
    let start = prefix.len() as int;
    assert(data.len() == start + 24);
    assert(data.subrange(start, start + 8) =~= footer_magic());
    assert(data.subrange(start + 8, start + 16) =~= a);
    assert(data.subrange(start + 16, start + 24) =~= d);
}

/// Law: in an executable made of a launcher, the application's bytes, the
/// library's bytes and a footer that records their lengths, the layout
/// finds exactly the application's and the library's bytes.
pub proof fn law_layout_recovers_payload(launcher: Seq<u8>, app: Seq<u8>, dll: Seq<u8>, footer: Seq<u8>)
    requires
        footer.len() == FOOTER_LEN,
    ensures
        ({
            let data = launcher + app + dll + footer;
            layout_model(data.len(), app.len(), dll.len()) matches Ok(layout) && {
                &&& data.subrange(layout.payload_start as int, layout.dll_start as int) == app
                &&& data.subrange(layout.dll_start as int, layout.footer_start as int) == dll
            }
        }) || launcher.len() + app.len() + dll.len() + FOOTER_LEN > usize::MAX,
{
    let data = launcher + app + dll + footer;
    if launcher.len() + app.len() + dll.len() + FOOTER_LEN <= usize::MAX {
        let l = launcher.len() as int;
        assert(data.subrange(l, l + app.len()) =~= app);
        assert(data.subrange(l + app.len(), l + app.len() + dll.len()) =~= dll);
    }
}

} // verus!

use vstd::prelude::*;

use crate::bytes::push_all;

verus! {

/// `"UPLOAD:"`: the colon form of the turn-upload verb.
pub open spec fn verb_upload_colon() -> Seq<u8> {
    seq![85u8, 80u8, 76u8, 79u8, 65u8, 68u8, 58u8]
}

/// Builds `"UPLOAD:"` as bytes.
pub fn verb_upload_colon_bytes() -> (v: Vec<u8>)
    ensures
        v@ == verb_upload_colon(),
{
    let p: [u8; 7] = [85u8, 80u8, 76u8, 79u8, 65u8, 68u8, 58u8];
    let mut v: Vec<u8> = Vec::new();
    push_all(&mut v, p.as_slice());
    proof {
        assert(v@ =~= verb_upload_colon());
    }
    v
}

/// `"DOWNLOAD:"`: the colon form of the turn-download verb.
pub open spec fn verb_download_colon() -> Seq<u8> {
    seq![68u8, 79u8, 87u8, 78u8, 76u8, 79u8, 65u8, 68u8, 58u8]
}

/// Builds `"DOWNLOAD:"` as bytes.
pub fn verb_download_colon_bytes() -> (v: Vec<u8>)
    ensures
        v@ == verb_download_colon(),
{
    let p: [u8; 9] = [68u8, 79u8, 87u8, 78u8, 76u8, 79u8, 65u8, 68u8, 58u8];
    let mut v: Vec<u8> = Vec::new();
    push_all(&mut v, p.as_slice());
    proof {
        assert(v@ =~= verb_download_colon());
    }
    v
}

/// `"DOWNLOAD_DROPBOX_SAVE:"`: the colon form of the url-download verb.
pub open spec fn verb_fetch_colon() -> Seq<u8> {
    seq![68u8, 79u8, 87u8, 78u8, 76u8, 79u8, 65u8, 68u8, 95u8, 68u8, 82u8, 79u8, 80u8, 66u8, 79u8, 88u8, 95u8, 83u8, 65u8, 86u8, 69u8, 58u8]
}

/// Builds `"DOWNLOAD_DROPBOX_SAVE:"` as bytes.
pub fn verb_fetch_colon_bytes() -> (v: Vec<u8>)
    ensures
        v@ == verb_fetch_colon(),
{
    let p: [u8; 22] = [68u8, 79u8, 87u8, 78u8, 76u8, 79u8, 65u8, 68u8, 95u8, 68u8, 82u8, 79u8, 80u8, 66u8, 79u8, 88u8, 95u8, 83u8, 65u8, 86u8, 69u8, 58u8];
    let mut v: Vec<u8> = Vec::new();
    push_all(&mut v, p.as_slice());
    proof {
        assert(v@ =~= verb_fetch_colon());
    }
    v
}

/// `"LIST_DROPBOX_SAVES"`: the folder-listing verb.
pub open spec fn verb_list() -> Seq<u8> {
    seq![76u8, 73u8, 83u8, 84u8, 95u8, 68u8, 82u8, 79u8, 80u8, 66u8, 79u8, 88u8, 95u8, 83u8, 65u8, 86u8, 69u8, 83u8]
}

/// Builds `"LIST_DROPBOX_SAVES"` as bytes.
pub fn verb_list_bytes() -> (v: Vec<u8>)
    ensures
        v@ == verb_list(),
{
    let p: [u8; 18] = [76u8, 73u8, 83u8, 84u8, 95u8, 68u8, 82u8, 79u8, 80u8, 66u8, 79u8, 88u8, 95u8, 83u8, 65u8, 86u8, 69u8, 83u8];
    let mut v: Vec<u8> = Vec::new();
    push_all(&mut v, p.as_slice());
    proof {
        assert(v@ =~= verb_list());
    }
    v
}

/// `"GET_STATUS"`: the status verb.
pub open spec fn verb_status() -> Seq<u8> {
    seq![71u8, 69u8, 84u8, 95u8, 83u8, 84u8, 65u8, 84u8, 85u8, 83u8]
}

/// Builds `"GET_STATUS"` as bytes.
pub fn verb_status_bytes() -> (v: Vec<u8>)
    ensures
        v@ == verb_status(),
{
    let p: [u8; 10] = [71u8, 69u8, 84u8, 95u8, 83u8, 84u8, 65u8, 84u8, 85u8, 83u8];
    let mut v: Vec<u8> = Vec::new();
    push_all(&mut v, p.as_slice());
    proof {
        assert(v@ =~= verb_status());
    }
    v
}

/// `"UPLOAD "`: the space form of the upload verb.
pub open spec fn verb_upload_space() -> Seq<u8> {
    seq![85u8, 80u8, 76u8, 79u8, 65u8, 68u8, 32u8]
}

/// Builds `"UPLOAD "` as bytes.
pub fn verb_upload_space_bytes() -> (v: Vec<u8>)
    ensures
        v@ == verb_upload_space(),
{
    let p: [u8; 7] = [85u8, 80u8, 76u8, 79u8, 65u8, 68u8, 32u8];
    let mut v: Vec<u8> = Vec::new();
    push_all(&mut v, p.as_slice());
    proof {
        assert(v@ =~= verb_upload_space());
    }
    v
}

/// `"DOWNLOAD "`: the space form of the download verb.
pub open spec fn verb_download_space() -> Seq<u8> {
    seq![68u8, 79u8, 87u8, 78u8, 76u8, 79u8, 65u8, 68u8, 32u8]
}

/// Builds `"DOWNLOAD "` as bytes.
pub fn verb_download_space_bytes() -> (v: Vec<u8>)
    ensures
        v@ == verb_download_space(),
{
    let p: [u8; 9] = [68u8, 79u8, 87u8, 78u8, 76u8, 79u8, 65u8, 68u8, 32u8];
    let mut v: Vec<u8> = Vec::new();
    push_all(&mut v, p.as_slice());
    proof {
        assert(v@ =~= verb_download_space());
    }
    v
}

/// `"LOAD:"`: the instruction token that tells the peer which file to load.
pub open spec fn load_prefix() -> Seq<u8> {
    seq![76u8, 79u8, 65u8, 68u8, 58u8]
}

/// Builds `"LOAD:"` as bytes.
pub fn load_prefix_bytes() -> (v: Vec<u8>)
    ensures
        v@ == load_prefix(),
{
    let p: [u8; 5] = [76u8, 79u8, 65u8, 68u8, 58u8];
    let mut v: Vec<u8> = Vec::new();
    push_all(&mut v, p.as_slice());
    proof {
        assert(v@ =~= load_prefix());
    }
    v
}

/// `"turn_"`: the prefix of a canonical turn file name.
pub open spec fn turn_prefix() -> Seq<u8> {
    seq![116u8, 117u8, 114u8, 110u8, 95u8]
}

/// Builds `"turn_"` as bytes.
pub fn turn_prefix_bytes() -> (v: Vec<u8>)
    ensures
        v@ == turn_prefix(),
{
    let p: [u8; 5] = [116u8, 117u8, 114u8, 110u8, 95u8];
    let mut v: Vec<u8> = Vec::new();
    push_all(&mut v, p.as_slice());
    proof {
        assert(v@ =~= turn_prefix());
    }
    v
}

/// `".sav"`: the extension of a canonical turn file name.
pub open spec fn sav_suffix() -> Seq<u8> {
    seq![46u8, 115u8, 97u8, 118u8]
}

/// Builds `".sav"` as bytes.
pub fn sav_suffix_bytes() -> (v: Vec<u8>)
    ensures
        v@ == sav_suffix(),
{
    let p: [u8; 4] = [46u8, 115u8, 97u8, 118u8];
    let mut v: Vec<u8> = Vec::new();
    push_all(&mut v, p.as_slice());
    proof {
        assert(v@ =~= sav_suffix());
    }
    v
}

/// `"/highest_numbered_files"`: the fixed remote folder that holds turn saves.
pub open spec fn remote_folder() -> Seq<u8> {
    seq![47u8, 104u8, 105u8, 103u8, 104u8, 101u8, 115u8, 116u8, 95u8, 110u8, 117u8, 109u8, 98u8, 101u8, 114u8, 101u8, 100u8, 95u8, 102u8, 105u8, 108u8, 101u8, 115u8]
}

/// Builds `"/highest_numbered_files"` as bytes.
pub fn remote_folder_bytes() -> (v: Vec<u8>)
    ensures
        v@ == remote_folder(),
{
    let p: [u8; 23] = [47u8, 104u8, 105u8, 103u8, 104u8, 101u8, 115u8, 116u8, 95u8, 110u8, 117u8, 109u8, 98u8, 101u8, 114u8, 101u8, 100u8, 95u8, 102u8, 105u8, 108u8, 101u8, 115u8];
    let mut v: Vec<u8> = Vec::new();
    push_all(&mut v, p.as_slice());
    proof {
        assert(v@ =~= remote_folder());
    }
    v
}

/// `"quicksave.sav"`: the fixed name the peer application gives its quicksave.
pub open spec fn quicksave_name() -> Seq<u8> {
    seq![113u8, 117u8, 105u8, 99u8, 107u8, 115u8, 97u8, 118u8, 101u8, 46u8, 115u8, 97u8, 118u8]
}

/// Builds `"quicksave.sav"` as bytes.
pub fn quicksave_name_bytes() -> (v: Vec<u8>)
    ensures
        v@ == quicksave_name(),
{
    let p: [u8; 13] = [113u8, 117u8, 105u8, 99u8, 107u8, 115u8, 97u8, 118u8, 101u8, 46u8, 115u8, 97u8, 118u8];
    let mut v: Vec<u8> = Vec::new();
    push_all(&mut v, p.as_slice());
    proof {
        assert(v@ =~= quicksave_name());
    }
    v
}

/// `"UPLOAD_OK"`: the acknowledgement for a finished upload.
pub open spec fn upload_ok_text() -> Seq<u8> {
    seq![85u8, 80u8, 76u8, 79u8, 65u8, 68u8, 95u8, 79u8, 75u8]
}

/// Builds `"UPLOAD_OK"` as bytes.
pub fn upload_ok_text_bytes() -> (v: Vec<u8>)
    ensures
        v@ == upload_ok_text(),
{
    let p: [u8; 9] = [85u8, 80u8, 76u8, 79u8, 65u8, 68u8, 95u8, 79u8, 75u8];
    let mut v: Vec<u8> = Vec::new();
    push_all(&mut v, p.as_slice());
    proof {
        assert(v@ =~= upload_ok_text());
    }
    v
}

/// `"UPLOAD_FAIL"`: the reply for an upload that found no quicksave.
pub open spec fn upload_fail_text() -> Seq<u8> {
    seq![85u8, 80u8, 76u8, 79u8, 65u8, 68u8, 95u8, 70u8, 65u8, 73u8, 76u8]
}

/// Builds `"UPLOAD_FAIL"` as bytes.
pub fn upload_fail_text_bytes() -> (v: Vec<u8>)
    ensures
        v@ == upload_fail_text(),
{
    let p: [u8; 11] = [85u8, 80u8, 76u8, 79u8, 65u8, 68u8, 95u8, 70u8, 65u8, 73u8, 76u8];
    let mut v: Vec<u8> = Vec::new();
    push_all(&mut v, p.as_slice());
    proof {
        assert(v@ =~= upload_fail_text());
    }
    v
}

/// `"operational"`: the status reply.
pub open spec fn operational_text() -> Seq<u8> {
    seq![111u8, 112u8, 101u8, 114u8, 97u8, 116u8, 105u8, 111u8, 110u8, 97u8, 108u8]
}

/// Builds `"operational"` as bytes.
pub fn operational_text_bytes() -> (v: Vec<u8>)
    ensures
        v@ == operational_text(),
{
    let p: [u8; 11] = [111u8, 112u8, 101u8, 114u8, 97u8, 116u8, 105u8, 111u8, 110u8, 97u8, 108u8];
    let mut v: Vec<u8> = Vec::new();
    push_all(&mut v, p.as_slice());
    proof {
        assert(v@ =~= operational_text());
    }
    v
}

/// `"unrecognized: "`: the prefix of the reply to an unknown verb.
pub open spec fn unrecognized_prefix() -> Seq<u8> {
    seq![117u8, 110u8, 114u8, 101u8, 99u8, 111u8, 103u8, 110u8, 105u8, 122u8, 101u8, 100u8, 58u8, 32u8]
}

/// Builds `"unrecognized: "` as bytes.
pub fn unrecognized_prefix_bytes() -> (v: Vec<u8>)
    ensures
        v@ == unrecognized_prefix(),
{
    let p: [u8; 14] = [117u8, 110u8, 114u8, 101u8, 99u8, 111u8, 103u8, 110u8, 105u8, 122u8, 101u8, 100u8, 58u8, 32u8];
    let mut v: Vec<u8> = Vec::new();
    push_all(&mut v, p.as_slice());
    proof {
        assert(v@ =~= unrecognized_prefix());
    }
    v
}

/// `"no saves"`: the reply for an empty remote folder.
pub open spec fn no_saves_text() -> Seq<u8> {
    seq![110u8, 111u8, 32u8, 115u8, 97u8, 118u8, 101u8, 115u8]
}

/// Builds `"no saves"` as bytes.
pub fn no_saves_text_bytes() -> (v: Vec<u8>)
    ensures
        v@ == no_saves_text(),
{
    let p: [u8; 8] = [110u8, 111u8, 32u8, 115u8, 97u8, 118u8, 101u8, 115u8];
    let mut v: Vec<u8> = Vec::new();
    push_all(&mut v, p.as_slice());
    proof {
        assert(v@ =~= no_saves_text());
    }
    v
}

/// `", "`: the separator between listed save names.
pub open spec fn name_sep() -> Seq<u8> {
    seq![44u8, 32u8]
}

/// Builds `", "` as bytes.
pub fn name_sep_bytes() -> (v: Vec<u8>)
    ensures
        v@ == name_sep(),
{
    let p: [u8; 2] = [44u8, 32u8];
    let mut v: Vec<u8> = Vec::new();
    push_all(&mut v, p.as_slice());
    proof {
        assert(v@ =~= name_sep());
    }
    v
}

/// `"download.bin"`: the file name used when a url ends without one.
pub open spec fn fallback_fetch_name() -> Seq<u8> {
    seq![100u8, 111u8, 119u8, 110u8, 108u8, 111u8, 97u8, 100u8, 46u8, 98u8, 105u8, 110u8]
}

/// Builds `"download.bin"` as bytes.
pub fn fallback_fetch_name_bytes() -> (v: Vec<u8>)
    ensures
        v@ == fallback_fetch_name(),
{
    let p: [u8; 12] = [100u8, 111u8, 119u8, 110u8, 108u8, 111u8, 97u8, 100u8, 46u8, 98u8, 105u8, 110u8];
    let mut v: Vec<u8> = Vec::new();
    push_all(&mut v, p.as_slice());
    proof {
        assert(v@ =~= fallback_fetch_name());
    }
    v
}

/// `"uploaded to "`: the acknowledgement prefix for a generic upload.
pub open spec fn uploaded_to_prefix() -> Seq<u8> {
    seq![117u8, 112u8, 108u8, 111u8, 97u8, 100u8, 101u8, 100u8, 32u8, 116u8, 111u8, 32u8]
}

/// Builds `"uploaded to "` as bytes.
pub fn uploaded_to_prefix_bytes() -> (v: Vec<u8>)
    ensures
        v@ == uploaded_to_prefix(),
{
    let p: [u8; 12] = [117u8, 112u8, 108u8, 111u8, 97u8, 100u8, 101u8, 100u8, 32u8, 116u8, 111u8, 32u8];
    let mut v: Vec<u8> = Vec::new();
    push_all(&mut v, p.as_slice());
    proof {
        assert(v@ =~= uploaded_to_prefix());
    }
    v
}

/// `"downloaded to "`: the acknowledgement prefix for a url download.
pub open spec fn downloaded_to_prefix() -> Seq<u8> {
    seq![100u8, 111u8, 119u8, 110u8, 108u8, 111u8, 97u8, 100u8, 101u8, 100u8, 32u8, 116u8, 111u8, 32u8]
}

/// Builds `"downloaded to "` as bytes.
pub fn downloaded_to_prefix_bytes() -> (v: Vec<u8>)
    ensures
        v@ == downloaded_to_prefix(),
{
    let p: [u8; 14] = [100u8, 111u8, 119u8, 110u8, 108u8, 111u8, 97u8, 100u8, 101u8, 100u8, 32u8, 116u8, 111u8, 32u8];
    let mut v: Vec<u8> = Vec::new();
    push_all(&mut v, p.as_slice());
    proof {
        assert(v@ =~= downloaded_to_prefix());
    }
    v
}

/// `"missing save file at "`: the start of the missing-quicksave diagnostic.
pub open spec fn missing_save_prefix() -> Seq<u8> {
    seq![109u8, 105u8, 115u8, 115u8, 105u8, 110u8, 103u8, 32u8, 115u8, 97u8, 118u8, 101u8, 32u8, 102u8, 105u8, 108u8, 101u8, 32u8, 97u8, 116u8, 32u8]
}

/// Builds `"missing save file at "` as bytes.
pub fn missing_save_prefix_bytes() -> (v: Vec<u8>)
    ensures
        v@ == missing_save_prefix(),
{
    let p: [u8; 21] = [109u8, 105u8, 115u8, 115u8, 105u8, 110u8, 103u8, 32u8, 115u8, 97u8, 118u8, 101u8, 32u8, 102u8, 105u8, 108u8, 101u8, 32u8, 97u8, 116u8, 32u8];
    let mut v: Vec<u8> = Vec::new();
    push_all(&mut v, p.as_slice());
    proof {
        assert(v@ =~= missing_save_prefix());
    }
    v
}

/// `"; expected directory "`: the middle of the missing-quicksave diagnostic.
pub open spec fn expected_dir_part() -> Seq<u8> {
    seq![59u8, 32u8, 101u8, 120u8, 112u8, 101u8, 99u8, 116u8, 101u8, 100u8, 32u8, 100u8, 105u8, 114u8, 101u8, 99u8, 116u8, 111u8, 114u8, 121u8, 32u8]
}

/// Builds `"; expected directory "` as bytes.
pub fn expected_dir_part_bytes() -> (v: Vec<u8>)
    ensures
        v@ == expected_dir_part(),
{
    let p: [u8; 21] = [59u8, 32u8, 101u8, 120u8, 112u8, 101u8, 99u8, 116u8, 101u8, 100u8, 32u8, 100u8, 105u8, 114u8, 101u8, 99u8, 116u8, 111u8, 114u8, 121u8, 32u8];
    let mut v: Vec<u8> = Vec::new();
    push_all(&mut v, p.as_slice());
    proof {
        assert(v@ =~= expected_dir_part());
    }
    v
}

/// `"; check read permissions"`: the end of the missing-quicksave diagnostic.
pub open spec fn check_perm_part() -> Seq<u8> {
    seq![59u8, 32u8, 99u8, 104u8, 101u8, 99u8, 107u8, 32u8, 114u8, 101u8, 97u8, 100u8, 32u8, 112u8, 101u8, 114u8, 109u8, 105u8, 115u8, 115u8, 105u8, 111u8, 110u8, 115u8]
}

/// Builds `"; check read permissions"` as bytes.
pub fn check_perm_part_bytes() -> (v: Vec<u8>)
    ensures
        v@ == check_perm_part(),
{
    let p: [u8; 24] = [59u8, 32u8, 99u8, 104u8, 101u8, 99u8, 107u8, 32u8, 114u8, 101u8, 97u8, 100u8, 32u8, 112u8, 101u8, 114u8, 109u8, 105u8, 115u8, 115u8, 105u8, 111u8, 110u8, 115u8];
    let mut v: Vec<u8> = Vec::new();
    push_all(&mut v, p.as_slice());
    proof {
        assert(v@ =~= check_perm_part());
    }
    v
}

/// `"unexpected sync outcome"`: the reply when the driver hands back an outcome of the wrong shape.
pub open spec fn mismatch_text() -> Seq<u8> {
    seq![117u8, 110u8, 101u8, 120u8, 112u8, 101u8, 99u8, 116u8, 101u8, 100u8, 32u8, 115u8, 121u8, 110u8, 99u8, 32u8, 111u8, 117u8, 116u8, 99u8, 111u8, 109u8, 101u8]
}

/// Builds `"unexpected sync outcome"` as bytes.
pub fn mismatch_text_bytes() -> (v: Vec<u8>)
    ensures
        v@ == mismatch_text(),
{
    let p: [u8; 23] = [117u8, 110u8, 101u8, 120u8, 112u8, 101u8, 99u8, 116u8, 101u8, 100u8, 32u8, 115u8, 121u8, 110u8, 99u8, 32u8, 111u8, 117u8, 116u8, 99u8, 111u8, 109u8, 101u8];
    let mut v: Vec<u8> = Vec::new();
    push_all(&mut v, p.as_slice());
    proof {
        assert(v@ =~= mismatch_text());
    }
    v
}

} // verus!
use mincore::count_resident;
use mincore::make_status_buffer;
use mincore::finish_probe;
use mincore::is_regular_file;
use mincore::page_count;
use mincore::page_size;
use mincore::plan_probe;
use mincore::residency_from_bytes;
use mincore::ProbeError;
use mincore::ACCESS_DENIED;

const REGULAR: u32 = 0o100644;
const DIRECTORY: u32 = 0o040755;
const SYMLINK: u32 = 0o120777;
const CHAR_DEVICE: u32 = 0o020660;
const PAGE: usize = 4096;

#[test]
fn empty_file_plan_is_empty() {
    let plan = plan_probe(REGULAR, 0, PAGE).unwrap();
    assert_eq!(plan.map_len, 0);
    assert_eq!(plan.vec_len, 0);
    let out = residency_from_bytes(&Vec::new());
    assert!(out.is_empty());
    let finished = finish_probe(Ok(Vec::new()), Ok(())).unwrap();
    assert!(finished.is_empty());
}

#[test]
fn length_matches_ceil() {
    assert_eq!(plan_probe(REGULAR, 1, PAGE).unwrap().vec_len, 1);
    assert_eq!(plan_probe(REGULAR, 4095, PAGE).unwrap().vec_len, 1);
    assert_eq!(plan_probe(REGULAR, 4096, PAGE).unwrap().vec_len, 1);
    assert_eq!(plan_probe(REGULAR, 4097, PAGE).unwrap().vec_len, 2);
    assert_eq!(plan_probe(REGULAR, 10000, PAGE).unwrap().vec_len, 3);
    assert_eq!(page_count(0, PAGE), 0);
    assert_eq!(page_count(1, 1), 1);
    assert_eq!(page_count(12289, PAGE), 4);
}

#[test]
fn non_regular_file_is_access_denied() {
    let err = plan_probe(DIRECTORY, 4096, PAGE).unwrap_err();
    assert_eq!(err.code, ACCESS_DENIED);
    assert_eq!(err.code, 13);
    assert_eq!(plan_probe(SYMLINK, 11, PAGE).unwrap_err().code, ACCESS_DENIED);
    assert_eq!(plan_probe(CHAR_DEVICE, 0, PAGE).unwrap_err().code, ACCESS_DENIED);
}

#[test]
fn regular_file_modes_accepted() {
    assert!(is_regular_file(REGULAR));
    assert!(is_regular_file(0o100000));
    assert!(!is_regular_file(DIRECTORY));
    assert!(!is_regular_file(SYMLINK));
}

#[test]
fn exact_multiple_has_no_partial_page() {
    let plan = plan_probe(REGULAR, 8192, PAGE).unwrap();
    assert_eq!(plan.vec_len, 2);
    assert_eq!(plan.map_len, 8192);
    assert_eq!(page_count(40960, PAGE), 10);
}

#[test]
fn three_pages_plan_and_translate() {
    let plan = plan_probe(REGULAR, 3 * (PAGE as i64), PAGE).unwrap();
    assert_eq!(plan.vec_len, 3);
    assert_eq!(plan.map_len, 3 * PAGE);
    let finished = finish_probe(Ok(vec![1u8, 1u8, 1u8]), Ok(())).unwrap();
    assert_eq!(finished, vec![true, true, true]);
    assert_eq!(count_resident(&finished), 3);
}

#[test]
fn residency_reads_the_low_bit() {
    let out = residency_from_bytes(&vec![0u8, 1u8, 2u8, 3u8, 0xffu8]);
    assert_eq!(out, vec![false, true, false, true, true]);
}

#[test]
fn query_error_wins_over_release_error() {
    let err = finish_probe(Err(22), Err(9)).unwrap_err();
    assert_eq!(err.code, 22);
}

#[test]
fn release_error_surfaces_after_successful_query() {
    let err = finish_probe(Ok(vec![1u8]), Err(9)).unwrap_err();
    assert_eq!(err.code, 9);
}

#[test]
fn successful_query_and_release_yield_residency() {
    let out = finish_probe(Ok(vec![1u8, 0u8]), Ok(())).unwrap();
    assert_eq!(out, vec![true, false]);
}

#[test]
fn count_resident_counts_true_entries() {
    assert_eq!(count_resident(&Vec::new()), 0);
    assert_eq!(count_resident(&vec![true, false, true, true]), 3);
    assert_eq!(count_resident(&vec![false, false]), 0);
}

#[test]
fn page_size_is_positive() {
    let p = page_size();
    assert!(p > 0);
    assert_eq!(p, page_size());
}

#[test]
fn status_buffer_is_zeroed_and_sized() {
    let buf = make_status_buffer(4);
    assert_eq!(buf, vec![0u8, 0u8, 0u8, 0u8]);
    assert!(make_status_buffer(0).is_empty());
    assert_eq!(residency_from_bytes(&buf), vec![false, false, false, false]);
}

#[test]
fn error_carries_its_code() {
    let e = ProbeError::from_code(12);
    assert_eq!(e.code, 12);
    assert_eq!(e, ProbeError { code: 12 });
}

use filepath::winpath::WinApiStrategy;
use filepath::FilePath;

fn units(s: &str) -> Vec<u16> {
    s.encode_utf16().collect()
}

#[test]
fn unc_prefix_rewritten_to_network_path() {
    assert_eq!(
        WinApiStrategy.path(units(r"\\?\UNC\server\share\file.txt")),
        units(r"\\server\share\file.txt")
    );
}

#[test]
fn extended_length_prefix_stripped() {
    assert_eq!(
        WinApiStrategy.path(units(r"\\?\C:\Users\x\file.txt")),
        units(r"C:\Users\x\file.txt")
    );
}

#[test]
fn plain_path_unchanged() {
    assert_eq!(
        WinApiStrategy.path(units(r"D:\plain\path.txt")),
        units(r"D:\plain\path.txt")
    );
}

#[test]
fn bare_prefixes() {
    assert_eq!(WinApiStrategy.path(units(r"\\?\")), Vec::<u16>::new());
    assert_eq!(WinApiStrategy.path(units(r"\\?\UNC\")), units(r"\\"));
    assert_eq!(WinApiStrategy.path(Vec::new()), Vec::<u16>::new());
}

#[test]
fn probe_of_zero_is_failure() {
    assert_eq!(WinApiStrategy.plan_fetch(0), None);
}

#[test]
fn probe_gives_exact_buffer_size() {
    assert_eq!(WinApiStrategy.plan_fetch(5), Some(5));
    assert_eq!(WinApiStrategy.plan_fetch(260), Some(260));
}

#[test]
fn fetch_reporting_zero_is_failure() {
    let buf = vec![0u16; 10];
    assert_eq!(WinApiStrategy.finish_fetch(buf, 10, 0), None);
}

#[test]
fn fetch_reaching_probed_length_is_failure() {
    // The path grew between the two calls: a benign race, surfaced as an
    // error rather than a truncated path.
    let buf = vec![0u16; 10];
    assert_eq!(WinApiStrategy.finish_fetch(buf.clone(), 10, 10), None);
    assert_eq!(WinApiStrategy.finish_fetch(buf, 10, 12), None);
}

#[test]
fn fetch_trims_then_normalizes() {
    let mut buf = units(r"\\?\C:\x");
    let written = buf.len() as u32;
    buf.extend(std::iter::repeat(0u16).take(4));
    let probed = buf.len() as u32;
    assert_eq!(
        WinApiStrategy.finish_fetch(buf, probed, written),
        Some(units(r"C:\x"))
    );
}

use filepath::fcntl::FcntlStrategy;
use filepath::procfs::ProcFsStrategy;
use filepath::winpath::WinApiStrategy;
use filepath::FilePath;

// Resolving twice in immediate succession on the same unmodified raw reply
// returns the same path both times, on every strategy.
#[test]
fn repeated_resolution_is_identical() {
    let link = b"/home/user/file".to_vec();
    assert_eq!(
        ProcFsStrategy.path(link.clone()),
        ProcFsStrategy.path(link)
    );

    let buf = b"/tmp/q\0\0".to_vec();
    assert_eq!(FcntlStrategy.path(buf.clone()), FcntlStrategy.path(buf));

    let wide: Vec<u16> = r"\\?\C:\q".encode_utf16().collect();
    assert_eq!(
        WinApiStrategy.path(wide.clone()),
        WinApiStrategy.path(wide)
    );
}

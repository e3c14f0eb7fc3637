use lib::memory::Memory;
use lib::system::{Bootstrap, Device, File, Io, Level, Logger, Storage, Stream, System};

#[test]
fn standard_files() {
    let f = File::res("disk", -4);
    assert_eq!((f.name, f.ptr.0), ("disk", -4));
    assert_eq!((File::stdout().name, File::stdout().ptr.0), ("stdout", 0));
    assert_eq!((File::stdin().name, File::stdin().ptr.0), ("stdin", 0));
    assert_eq!((File::stderr().name, File::stderr().ptr.0), ("stderr", 0));
}

#[test]
fn bootstrapped_parts() {
    let io = Io::bootstrap();
    assert_eq!((io.send.name, io.recv.name), ("stdout", "stdin"));
    let d = Device::bootstrap();
    assert_eq!((d.io.send.name, d.io.recv.name), ("stdout", "stdin"));
    let l = Logger::bootstrap();
    assert_eq!((l.stdout.name, l.stdin.name, l.stderr.name), ("stdout", "stdin", "stderr"));
    let s = Storage::bootstrap();
    assert!(matches!(s.data, Memory::Heap(ref h) if h.0.is_empty()));
    let s = Device::storage();
    assert_eq!(s.device.io.recv.name, "stdin");
}

#[test]
fn system_new_is_fresh() {
    let sys = System::new();
    assert_eq!(sys.root_device.io.send.name, "stdout");
    assert_eq!(sys.console.stderr.name, "stderr");
    assert!(matches!(sys.storage.data, Memory::Heap(ref h) if h.0.is_empty()));
}

#[test]
fn log_lines() {
    let sys = System::new();
    let l = sys.console.log("Hello, world!");
    assert_eq!((l.stream, l.level, l.file.name, l.text.as_str()), (Stream::Stdout, Level::Info, "stdout", "Hello, world!"));
    let w = sys.console.warn("careful");
    assert_eq!((w.stream, w.level, w.file.name), (Stream::Stdout, Level::Warn, "stdout"));
    let e = sys.console.err("broken");
    assert_eq!((e.stream, e.level, e.file.name, e.text.as_str()), (Stream::Stderr, Level::Error, "stderr", "broken"));
}

#[test]
fn log_lines_render_as_the_console_writes_them() {
    let sys = System::new();
    assert_eq!(sys.console.log("Hello, world!").render(), "[stdout:0/info] Hello, world!");
    assert_eq!(sys.console.warn("careful").render(), "[stdout:0/warn] careful");
    assert_eq!(sys.console.err("broken").render(), "[stderr:0/error] broken");
    let mut l = Logger::bootstrap();
    l.stdout = File::res("disk", -42);
    assert_eq!(l.log("x").render(), "[disk:-42/info] x");
    l.stdout = File::res("big", isize::MIN);
    assert_eq!(l.warn("").render(), format!("[big:{}/warn] ", isize::MIN));
    l.stdout = File::res("top", 1234567);
    assert_eq!(l.log("y").render(), "[top:1234567/info] y");
}

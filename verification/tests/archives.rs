use chord::archive::{
    extract_ffmpeg_from_tar_xz, extract_zip_binaries, path_segments_exec, select_ffmpeg_binaries,
    select_zip_binaries, tar_entry_binary, TarBinary,
};
use std::io::Write;

fn tar_xz(entries: &[(&str, &[u8])]) -> Vec<u8> {
    let mut builder = tar::Builder::new(Vec::new());
    for (path, data) in entries {
        let mut header = tar::Header::new_gnu();
        header.set_size(data.len() as u64);
        header.set_mode(0o755);
        header.set_cksum();
        builder.append_data(&mut header, path, *data).unwrap();
    }
    let tar_bytes = builder.into_inner().unwrap();
    let mut enc = xz2::write::XzEncoder::new(Vec::new(), 6);
    enc.write_all(&tar_bytes).unwrap();
    enc.finish().unwrap()
}

fn zip_bytes(entries: &[(&str, &[u8])]) -> Vec<u8> {
    let mut w = zip::ZipWriter::new(std::io::Cursor::new(Vec::new()));
    for (name, data) in entries {
        w.start_file(*name, zip::write::SimpleFileOptions::default()).unwrap();
        w.write_all(data).unwrap();
    }
    w.finish().unwrap().into_inner()
}

fn parts(p: &str) -> Vec<u8> {
    p.as_bytes().to_vec()
}

#[test]
fn tar_xz_with_both_binaries() {
    let bytes = tar_xz(&[
        ("ffmpeg-master/doc/readme.txt", b"doc"),
        ("ffmpeg-master/bin/ffprobe", b"PROBE"),
        ("ffmpeg-master/bin/ffmpeg", b"MPEG"),
        ("ffmpeg-master/bin/ffplay", b"PLAY"),
    ]);
    let (ffmpeg, ffprobe) = extract_ffmpeg_from_tar_xz(&bytes).unwrap();
    assert_eq!(ffmpeg, b"MPEG".to_vec());
    assert_eq!(ffprobe, b"PROBE".to_vec());
}

#[test]
fn tar_xz_without_ffprobe() {
    let bytes = tar_xz(&[("x/bin/ffmpeg", b"A"), ("x/bin/ffmpeg", b"B")]);
    assert_eq!(
        extract_ffmpeg_from_tar_xz(&bytes).unwrap_err(),
        "Could not find ffmpeg or ffprobe binaries inside the tar.xz archive"
    );
    assert_eq!(
        extract_ffmpeg_from_tar_xz(b"not an archive").unwrap_err(),
        "Failed to read entry: stream/file format not recognized"
    );
}

#[test]
fn tar_selection_keeps_latest_until_both_seen() {
    let entries = vec![
        (parts("a/bin/ffmpeg"), b"first".to_vec()),
        (parts("a/bin/ffmpeg"), b"second".to_vec()),
        (parts("a/bin/ffprobe"), b"probe".to_vec()),
        (parts("b/bin/ffmpeg"), b"third".to_vec()),
    ];
    let (a, b) = select_ffmpeg_binaries(&entries).unwrap();
    assert_eq!(a, b"second".to_vec());
    assert_eq!(b, b"probe".to_vec());
    assert!(select_ffmpeg_binaries(&vec![]).is_err());
}

#[test]
fn zip_with_all_mappings() {
    let bytes = zip_bytes(&[
        ("ffmpeg-7.0/README.txt", b"r"),
        ("ffmpeg-7.0/bin/ffmpeg", b"MPEG"),
        ("ffmpeg-7.0/bin/ffprobe", b"PROBE"),
    ]);
    let mappings = vec![("ffmpeg".to_string(), "ffmpeg".to_string()), ("ffprobe".to_string(), "ffprobe".to_string())];
    let datas = extract_zip_binaries(&bytes, &mappings, "ffmpeg").unwrap();
    assert_eq!(datas, vec![b"MPEG".to_vec(), b"PROBE".to_vec()]);
}

#[test]
fn zip_missing_a_mapping() {
    let bytes = zip_bytes(&[("bin/ffmpeg", b"A"), ("other/ffmpeg", b"B")]);
    let mappings = vec![("ffmpeg".to_string(), "ffmpeg".to_string()), ("ffprobe".to_string(), "ffprobe".to_string())];
    assert_eq!(
        extract_zip_binaries(&bytes, &mappings, "ffmpeg").unwrap_err(),
        "Could only find 1/2 binaries in the archive for ffmpeg"
    );
    let err = extract_zip_binaries(b"garbage", &mappings, "ffmpeg").unwrap_err();
    assert!(err.starts_with("Invalid zip archive: "));
    assert!(err.len() > "Invalid zip archive: ".len());
}

#[test]
fn zip_selection_takes_first_entry() {
    let names = vec!["x/deno".to_string(), "y/deno".to_string()];
    let mappings = vec![("deno".to_string(), "deno".to_string())];
    assert_eq!(select_zip_binaries(&names, &mappings, "deno").unwrap(), vec![0]);
    assert_eq!(
        select_zip_binaries(&vec![], &mappings, "deno").unwrap_err(),
        "Could only find 0/1 binaries in the archive for deno"
    );
    let names = vec!["x/README".to_string(), "x/bin/ffprobe".to_string(), "x/bin/ffmpeg".to_string()];
    let mappings = vec![("ffmpeg".to_string(), "ffmpeg".to_string()), ("ffprobe".to_string(), "ffprobe".to_string())];
    assert_eq!(select_zip_binaries(&names, &mappings, "ffmpeg").unwrap(), vec![2, 1]);
}

#[test]
fn tar_entry_paths() {
    assert_eq!(tar_entry_binary(&parts("ffmpeg-master/bin/ffmpeg")), Some(TarBinary::Ffmpeg));
    assert_eq!(tar_entry_binary(&parts("./x/bin//ffprobe/")), Some(TarBinary::Ffprobe));
    assert_eq!(tar_entry_binary(&parts("/bin/./ffmpeg")), Some(TarBinary::Ffmpeg));
    assert_eq!(tar_entry_binary(&parts("x/lib/ffmpeg")), None);
    assert_eq!(tar_entry_binary(&parts("ffmpeg")), None);
    assert_eq!(tar_entry_binary(&parts("x/bin/ffmpeg.exe")), None);
    let segs = path_segments_exec(&parts("./a//b/./c/"));
    assert_eq!(segs, vec![b"a".to_vec(), b"b".to_vec(), b"c".to_vec()]);
}

#[test]
fn tar_paths_read_as_components() {
    for p in ["ffmpeg-master/bin/ffmpeg", "./x/bin//ffprobe/", "/bin/./ffmpeg", "x/lib/ffmpeg", "a/bin/ffmpeg/x"] {
        let by_path = std::path::Path::new(p);
        let expected = if by_path.ends_with("bin/ffmpeg") {
            Some(TarBinary::Ffmpeg)
        } else if by_path.ends_with("bin/ffprobe") {
            Some(TarBinary::Ffprobe)
        } else {
            None
        };
        assert_eq!(tar_entry_binary(&parts(p)), expected, "{}", p);
    }
}

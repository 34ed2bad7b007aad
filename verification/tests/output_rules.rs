use std::io::{Read, Seek, SeekFrom, Write};
use std::path::{Component, Path, PathBuf};

use tempfile::{tempdir, Builder};
use webp_to_gif::output::{
    default_output_dir_for_executable, first_free_gif_path, gif_file_name, is_webp_file, unique_gif_path,
    OutputError,
};
use webp_to_gif::path::FilePath;

fn model_of(path: &Path) -> FilePath {
    let mut root = String::new();
    let mut names = Vec::new();
    for component in path.components() {
        match component {
            Component::Prefix(prefix) => root.push_str(&prefix.as_os_str().to_string_lossy()),
            Component::RootDir => root.push(std::path::MAIN_SEPARATOR),
            Component::CurDir => names.push(".".to_string()),
            Component::ParentDir => names.push("..".to_string()),
            Component::Normal(name) => names.push(name.to_string_lossy().into_owned()),
        }
    }
    FilePath { root, names }
}

fn std_path(path: &FilePath) -> PathBuf {
    let mut buf = PathBuf::from(&path.root);
    for name in &path.names {
        buf.push(name);
    }
    buf
}

#[test]
fn default_output_dir_is_gif_folder_next_to_executable() {
    let base = tempdir().unwrap();
    let executable = base.path().join("WebP To GIF.exe");

    let output = std_path(&default_output_dir_for_executable(&model_of(&executable)));

    assert_eq!(output, base.path().join("GIF"));
}

#[test]
fn default_output_dir_of_bare_executable_name_is_relative() {
    let output = default_output_dir_for_executable(&model_of(Path::new("tool.exe")));
    assert_eq!(output.root, "");
    assert_eq!(output.names, vec!["GIF".to_string()]);
}

#[test]
fn default_output_dir_of_root_is_in_current_dir() {
    let output = default_output_dir_for_executable(&model_of(Path::new("/")));
    assert_eq!(output.names, vec![".".to_string(), "GIF".to_string()]);
    assert_eq!(std_path(&output), Path::new("./GIF"));
}

#[test]
fn unique_gif_path_preserves_existing_files() {
    let base = tempdir().unwrap();
    let source = base.path().join("sample.webp");
    let output_dir = Builder::new().prefix("GIF").rand_bytes(0).tempdir_in(base.path()).unwrap();
    let mut existing = Builder::new()
        .prefix("sample")
        .suffix(".gif")
        .rand_bytes(0)
        .tempfile_in(output_dir.path())
        .unwrap();
    existing.write_all(b"existing").unwrap();

    let next = unique_gif_path(&model_of(&source), &model_of(output_dir.path())).unwrap();

    assert_eq!(std_path(&next), output_dir.path().join("sample (1).gif"));
    let mut content = Vec::new();
    existing.as_file_mut().seek(SeekFrom::Start(0)).unwrap();
    existing.as_file_mut().read_to_end(&mut content).unwrap();
    assert_eq!(content, b"existing");
}

#[test]
fn unique_gif_path_takes_plain_name_when_free() {
    let base = tempdir().unwrap();
    let next = unique_gif_path(&model_of(&base.path().join("clip.WEBP")), &model_of(base.path())).unwrap();
    assert_eq!(std_path(&next), base.path().join("clip.gif"));
}

#[test]
fn unique_gif_path_skips_every_taken_number() {
    let base = tempdir().unwrap();
    let mut held = Vec::new();
    for name in ["a", "a (1)", "a (2)"] {
        held.push(
            Builder::new().prefix(name).suffix(".gif").rand_bytes(0).tempfile_in(base.path()).unwrap(),
        );
    }
    let next = unique_gif_path(&model_of(&base.path().join("a.webp")), &model_of(base.path())).unwrap();
    assert_eq!(std_path(&next), base.path().join("a (3).gif"));
}

#[test]
fn unique_gif_path_needs_a_file_name() {
    let base = tempdir().unwrap();
    let dir = model_of(base.path());
    assert!(matches!(
        unique_gif_path(&model_of(Path::new("/")), &dir),
        Err(OutputError::MissingFileName)
    ));
    assert!(matches!(
        unique_gif_path(&model_of(Path::new("photos/..")), &dir),
        Err(OutputError::MissingFileName)
    ));
}

#[test]
fn output_errors_have_messages() {
    assert_eq!(OutputError::MissingFileName.message(), "源文件没有有效文件名");
    assert_eq!(OutputError::NamesExhausted.message(), "没有可用的输出文件名");
}

#[test]
fn gif_file_names_are_numbered() {
    assert_eq!(gif_file_name("movie", 0), "movie.gif");
    assert_eq!(gif_file_name("movie", 1), "movie (1).gif");
    assert_eq!(gif_file_name("movie", 12), "movie (12).gif");
    assert_eq!(gif_file_name("a.b", 0), "a.b.gif");
}

#[test]
fn webp_file_filter_is_case_insensitive() {
    assert!(is_webp_file(&model_of(Path::new("photo.webp"))));
    assert!(is_webp_file(&model_of(Path::new("photo.WEBP"))));
    assert!(!is_webp_file(&model_of(Path::new("photo.gif"))));
    assert!(!is_webp_file(&model_of(Path::new("photo"))));
}

#[test]
fn webp_filter_looks_only_at_the_last_extension() {
    assert!(is_webp_file(&model_of(Path::new("dir/archive.tar.WebP"))));
    assert!(!is_webp_file(&model_of(Path::new("photo.webp.gif"))));
    assert!(!is_webp_file(&model_of(Path::new(".webp"))));
    assert!(!is_webp_file(&model_of(Path::new("photo.webpx"))));
}

#[test]
fn first_free_gif_path_takes_the_least_free_number() {
    let taken_paths = [PathBuf::from("/out/sample.gif"), PathBuf::from("/out/sample (2).gif")];
    let asked = std::cell::RefCell::new(Vec::new());
    let next = first_free_gif_path(&model_of(Path::new("/in/sample.webp")), &model_of(Path::new("/out")), |p: &FilePath| {
        let path = std_path(p);
        asked.borrow_mut().push(path.clone());
        taken_paths.contains(&path)
    })
    .unwrap();
    assert_eq!(std_path(&next), PathBuf::from("/out/sample (1).gif"));
    assert_eq!(
        asked.into_inner(),
        vec![PathBuf::from("/out/sample.gif"), PathBuf::from("/out/sample (1).gif")]
    );
}

#[test]
fn first_free_gif_path_replaces_only_the_last_extension() {
    let next = first_free_gif_path(&model_of(Path::new("/in/archive.tar.webp")), &model_of(Path::new("/out")), |_: &FilePath| false)
        .unwrap();
    assert_eq!(std_path(&next), PathBuf::from("/out/archive.tar.gif"));
}

#[test]
fn first_free_gif_path_asks_about_each_number_in_turn() {
    let next = first_free_gif_path(&model_of(Path::new("clip.webp")), &model_of(Path::new("GIF")), |p: &FilePath| {
        p.names.last().map_or(false, |name| name != "clip (7).gif")
    })
    .unwrap();
    assert_eq!(next.names, vec!["GIF".to_string(), "clip (7).gif".to_string()]);
}

#[test]
fn first_free_gif_path_needs_a_file_name() {
    let result = first_free_gif_path(&model_of(Path::new("/")), &model_of(Path::new("/out")), |_: &FilePath| false);
    assert!(matches!(result, Err(OutputError::MissingFileName)));
}

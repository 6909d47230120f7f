//! The decisions of the build steps: compiler settings, where object files
//! go, the QML module plugin files, and the cargo lines that a build prints.

use vstd::prelude::*;
use crate::naming::{join_path, path_join, plugin_name, plugin_name_from_uri};
use crate::strings::{copy_strings, extend_strings};
use crate::text::{decimal, push_decimal, push_str, string_of};

verus! {

/// The settings that every C++ compiler run of a CXX-Qt build gets: C++ mode,
/// the C++17 standard, four flags that are passed where the compiler supports
/// them, the defines (without values) and the include paths.
#[derive(Debug, PartialEq, Eq)]
pub struct CcSetup {
    pub cpp: bool,
    pub standard: String,
    pub flags_if_supported: Vec<String>,
    pub defines: Vec<String>,
    pub include_paths: Vec<String>,
}

/// The flags that are passed to the C++ compiler where it supports them:
/// three for MSVC, and big object files for MinGW.
pub open spec fn supported_flags() -> Seq<Seq<char>> {
    seq!["/Zc:__cplusplus"@, "/permissive-"@, "/bigobj"@, "-Wa,-mbig-obj"@]
}

/// The compiler settings for the given include paths and defines.
pub fn setup_cc_builder(include_paths: &Vec<String>, defines: &Vec<String>) -> (res: CcSetup)
    ensures
        res.cpp,
        res.standard@ == "c++17"@,
        res.flags_if_supported.deep_view() == supported_flags(),
        res.defines.deep_view() == defines.deep_view(),
        res.include_paths.deep_view() == include_paths.deep_view(),
{
    let mut flags: Vec<String> = Vec::new();
    flags.push(string_of("/Zc:__cplusplus"));
    flags.push(string_of("/permissive-"));
    flags.push(string_of("/bigobj"));
    flags.push(string_of("-Wa,-mbig-obj"));
    assert(flags.deep_view() =~= supported_flags());
    CcSetup {
        cpp: true,
        standard: string_of("c++17"),
        flags_if_supported: flags,
        defines: copy_strings(defines),
        include_paths: copy_strings(include_paths),
    }
}

/// What becomes of the one object file that a compiler run produced.
#[derive(Debug, PartialEq, Eq)]
pub enum ObjectFileAction {
    /// Copy it to `path` (after creating `directory`), for a C++ build system
    /// to link.
    Export { directory: String, path: String },
    /// Leave it: it is exported elsewhere or not at all.
    Keep,
    /// Print these two lines, which link the object file and then the
    /// crate's static library (in this order, so that the linker finds the
    /// symbols of the library).
    Link { object_arg: String, library_arg: String },
}

/// The cargo line `cargo:rerun-if-changed=<path>`.
pub open spec fn rerun_line(path: Seq<char>) -> Seq<char> {
    "cargo:rerun-if-changed="@ + path
}

/// The cargo line `cargo:rerun-if-changed=<path>`.
pub fn rerun_if_changed_line(path: &str) -> (res: String)
    ensures
        res@ == rerun_line(path@),
{
    let mut s = string_of("cargo:rerun-if-changed=");
    push_str(&mut s, path);
    s
}

/// What to do with the object file `obj_file`: with an export directory and
/// an export location (a directory below it and a file name), copy it there;
/// with an export directory but no location, keep it; without an export
/// directory, link it and then the static library `static_lib_name`.
pub fn object_file_action(
    obj_file: &str,
    export_dir: Option<&str>,
    export_path: Option<(&str, &str)>,
    static_lib_name: &str,
) -> (res: ObjectFileAction)
    ensures
        match export_dir {
            Some(dir) => match export_path {
                Some((out_directory, out_file_name)) => {
                    let directory = path_join(dir@, out_directory@);
                    res matches ObjectFileAction::Export { directory: d, path: p } && d@ == directory && p@
                        == path_join(directory, out_file_name@)
                },
                None => res is Keep,
            },
            None => res matches ObjectFileAction::Link { object_arg, library_arg } && object_arg@
                == "cargo::rustc-link-arg="@ + obj_file@ && library_arg@ == "cargo::rustc-link-arg=-l"@
                + static_lib_name@,
        },
{
    match export_dir {
        Some(dir) => match export_path {
            Some((out_directory, out_file_name)) => {
                let directory = join_path(dir, out_directory);
                let path = join_path(directory.as_str(), out_file_name);
                ObjectFileAction::Export { directory, path }
            },
            None => ObjectFileAction::Keep,
        },
        None => {
            let mut object_arg = string_of("cargo::rustc-link-arg=");
            push_str(&mut object_arg, obj_file);
            let mut library_arg = string_of("cargo::rustc-link-arg=-l");
            push_str(&mut library_arg, static_lib_name);
            ObjectFileAction::Link { object_arg, library_arg }
        },
    }
}

/// The message of the panic when a compiler run gave other than one object
/// file.
pub fn object_file_count_message(count: usize) -> (res: String)
    ensures
        res@ == "CXX-Qt internal error: Expected only one object file out of cc::Build! Got "@ + decimal(
            count as nat,
        ),
{
    let mut s = string_of("CXX-Qt internal error: Expected only one object file out of cc::Build! Got ");
    push_decimal(&mut s, count as u64);
    s
}

/// Where the object file that initializes the plugin of the QML module `uri`
/// is exported: the directory `plugins/<plugin name>` and the file
/// `plugin_init.o`.
pub fn plugin_init_export_path(uri: &str) -> (res: (String, String))
    ensures
        res.0@ == "plugins/"@ + plugin_name(uri@),
        res.1@ == "plugin_init.o"@,
{
    let mut dir = string_of("plugins/");
    let name = plugin_name_from_uri(uri);
    push_str(&mut dir, name.as_str());
    (dir, string_of("plugin_init.o"))
}

/// The files of a QML module whose change triggers a new build: its `.qml`
/// files, its bridge files and its `.qrc` files, in this order.
pub fn qml_module_watched_files(qml_files: &Vec<String>, rust_files: &Vec<String>, qrc_files: &Vec<String>) -> (res: Vec<String>)
    ensures
        res.deep_view() == qml_files.deep_view() + rust_files.deep_view() + qrc_files.deep_view(),
{
    let mut res = copy_strings(qml_files);
    extend_strings(&mut res, rust_files);
    extend_strings(&mut res, qrc_files);
    res
}

/// The paths that a build uses below the header root.
#[derive(Debug, PartialEq, Eq)]
pub struct BuildPaths {
    /// Where the generated headers go: `<header root>/cxx-qt-gen/`.
    pub generated_header_dir: String,
    /// Where the CXX-Qt headers go: `<header root>/cxx-qt`.
    pub cxx_qt_header_dir: String,
    /// Where the CXX header directory is: `<header root>/rust`.
    pub cxx_header_dir: String,
    /// The CXX header itself: `<header root>/rust/cxx.h`.
    pub cxx_header: String,
}

/// The paths that a build uses below `header_root`.
pub fn build_paths(header_root: &str) -> (res: BuildPaths)
    ensures
        res.generated_header_dir@ == path_join(header_root@, "cxx-qt-gen/"@),
        res.cxx_qt_header_dir@ == path_join(header_root@, "cxx-qt"@),
        res.cxx_header_dir@ == path_join(header_root@, "rust"@),
        res.cxx_header@ == path_join(path_join(header_root@, "rust"@), "cxx.h"@),
{
    let rust_dir = join_path(header_root, "rust");
    let cxx_header = join_path(rust_dir.as_str(), "cxx.h");
    BuildPaths {
        generated_header_dir: join_path(header_root, "cxx-qt-gen/"),
        cxx_qt_header_dir: join_path(header_root, "cxx-qt"),
        cxx_header_dir: rust_dir,
        cxx_header,
    }
}

/// The include paths of the compiler runs: those of Qt, then the header root
/// and the directory of the generated headers.
pub fn include_paths(qt_include_paths: &Vec<String>, header_root: &str, generated_header_dir: &str) -> (res: Vec<String>)
    ensures
        res.deep_view() == qt_include_paths.deep_view() + seq![header_root@, generated_header_dir@],
{
    let mut res = copy_strings(qt_include_paths);
    let ghost before = res.deep_view();
    res.push(string_of(header_root));
    res.push(string_of(generated_header_dir));
    assert(res.deep_view() =~= before + seq![header_root@, generated_header_dir@]);
    res
}

/// The directory where the C++ sources generated from bridge files go:
/// `<out dir>/cxx-qt-gen/src`.
pub fn generated_sources_dir(out_dir: &str) -> (res: String)
    ensures
        res@ == path_join(out_dir@, "cxx-qt-gen/src"@),
{
    join_path(out_dir, "cxx-qt-gen/src")
}

} // verus!

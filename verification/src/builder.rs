//! The state of a CXX-Qt build: which bridge files, headers, resources, Qt
//! modules and QML modules it covers, and the rules that hold between them.

use vstd::prelude::*;
use crate::naming::{contains_path, join_path, list_contains_path, path_join, same_path};
use crate::strings::{extend_strings, extend_unique, insert_unique, set_extend, set_insert};
use crate::text::{decimal, join, push_decimal, push_str, string_of};

verus! {

/// Arguments for running moc on a header.
#[derive(Debug, PartialEq, Eq)]
pub struct MocArguments {
    /// The URI of the QML module that the header's types belong to.
    pub uri: Option<String>,
    /// Additional include paths for moc.
    pub include_paths: Vec<String>,
}

/// The mathematical value of `MocArguments`.
pub type MocArgumentsView = (Option<Seq<char>>, Seq<Seq<char>>);

impl DeepView for MocArguments {
    type V = MocArgumentsView;

    open spec fn deep_view(&self) -> MocArgumentsView {
        (
            match self.uri {
                Some(u) => Some(u@),
                None => None,
            },
            self.include_paths.deep_view(),
        )
    }
}

impl MocArguments {
    /// Arguments with no URI and no include paths.
    pub fn new() -> (res: MocArguments)
        ensures
            res.deep_view() == (None::<Seq<char>>, Seq::<Seq<char>>::empty()),
    {
        let res = MocArguments { uri: None, include_paths: Vec::new() };
        assert(res.deep_view().1 =~= Seq::<Seq<char>>::empty());
        res
    }

    /// These arguments with the URI set to `uri`.
    pub fn uri(self, uri: String) -> (res: MocArguments)
        ensures
            res.deep_view() == (Some(uri@), self.deep_view().1),
    {
        MocArguments { uri: Some(uri), include_paths: self.include_paths }
    }
}

/// A C++ header with a `Q_OBJECT` class to run moc on, and the arguments for
/// moc.
#[derive(Debug, PartialEq, Eq)]
pub struct QObjectHeaderOpts {
    pub path: String,
    pub moc_arguments: MocArguments,
}

/// The mathematical value of `QObjectHeaderOpts`.
pub type QObjectHeaderOptsView = (Seq<char>, MocArgumentsView);

impl DeepView for QObjectHeaderOpts {
    type V = QObjectHeaderOptsView;

    open spec fn deep_view(&self) -> QObjectHeaderOptsView {
        (self.path@, self.moc_arguments.deep_view())
    }
}

impl QObjectHeaderOpts {
    /// The header at `path`, with default moc arguments.
    pub fn from_path(path: String) -> (res: QObjectHeaderOpts)
        ensures
            res.deep_view() == (path@, (None::<Seq<char>>, Seq::<Seq<char>>::empty())),
    {
        QObjectHeaderOpts { path, moc_arguments: MocArguments::new() }
    }
}

/// A QML module to register: its URI and version, the bridge files whose
/// QObjects it holds, its `.qml` files and further `.qrc` resource files.
#[derive(Debug, PartialEq, Eq)]
pub struct QmlModule {
    pub uri: String,
    pub version_major: usize,
    pub version_minor: usize,
    pub rust_files: Vec<String>,
    pub qml_files: Vec<String>,
    pub qrc_files: Vec<String>,
}

/// The mathematical value of a `QmlModule`.
pub struct QmlModuleView {
    pub uri: Seq<char>,
    pub version_major: nat,
    pub version_minor: nat,
    pub rust_files: Seq<Seq<char>>,
    pub qml_files: Seq<Seq<char>>,
    pub qrc_files: Seq<Seq<char>>,
}

impl DeepView for QmlModule {
    type V = QmlModuleView;

    open spec fn deep_view(&self) -> QmlModuleView {
        QmlModuleView {
            uri: self.uri@,
            version_major: self.version_major as nat,
            version_minor: self.version_minor as nat,
            rust_files: self.rust_files.deep_view(),
            qml_files: self.qml_files.deep_view(),
            qrc_files: self.qrc_files.deep_view(),
        }
    }
}

/// Extra build options, as a dependency crate hands them on: headers to
/// write (contents, directory below the header root, file name), C++
/// defines, initializer code, and Qt modules to link.
#[derive(Debug, PartialEq, Eq)]
pub struct CxxQtBuildersOpts {
    pub headers: Vec<(String, String, String)>,
    pub defines: Vec<String>,
    pub initializers: Vec<String>,
    pub qt_modules: Vec<String>,
}

/// A header file to write: the directory to create, the path of the file,
/// and its contents.
#[derive(Debug, PartialEq, Eq)]
pub struct HeaderFile {
    pub directory: String,
    pub path: String,
    pub contents: String,
}

impl DeepView for HeaderFile {
    type V = (Seq<char>, Seq<char>, Seq<char>);

    open spec fn deep_view(&self) -> (Seq<char>, Seq<char>, Seq<char>) {
        (self.directory@, self.path@, self.contents@)
    }
}

/// No path of `sources` is (as a path) a bridge file of any of `modules`.
pub open spec fn bridge_files_disjoint(sources: Seq<Seq<char>>, modules: Seq<QmlModuleView>) -> bool {
    forall|j: int, k: int|
        0 <= j < modules.len() && 0 <= k < modules[j].rust_files.len() ==> !contains_path(
            sources,
            #[trigger] modules[j].rust_files[k],
        )
}

/// Whether some module of `modules` names `path` (as a path) as a bridge file.
pub open spec fn declared_in_modules(modules: Seq<QmlModuleView>, path: Seq<char>) -> bool {
    exists|j: int| 0 <= j < modules.len() && contains_path((#[trigger] modules[j]).rust_files, path)
}

/// The message of the panic when a bridge file is given both to
/// `CxxQtBuilder::file` and to a QML module.
pub open spec fn duplicate_message(path: Seq<char>, uri: Seq<char>, major: nat, minor: nat) -> Seq<char> {
    "CXX-Qt bridge Rust file "@ + path + " specified in QML module "@ + uri + " (version "@ + decimal(major)
        + "."@ + decimal(minor)
        + "), but also specified via CxxQtBuilder::file. Bridge files must be specified via CxxQtBuilder::file or CxxQtBuilder::qml_module, but not both."@
}

/// The message of the panic when the bridge file `path` is given both to
/// `CxxQtBuilder::file` and to the QML module `uri` of the given version.
pub fn duplicate_file_and_qml_module_message(path: &str, uri: &str, version_major: usize, version_minor: usize) -> (res: String)
    ensures
        res@ == duplicate_message(path@, uri@, version_major as nat, version_minor as nat),
{
    let mut s = string_of("CXX-Qt bridge Rust file ");
    push_str(&mut s, path);
    push_str(&mut s, " specified in QML module ");
    push_str(&mut s, uri);
    push_str(&mut s, " (version ");
    push_decimal(&mut s, version_major as u64);
    push_str(&mut s, ".");
    push_decimal(&mut s, version_minor as u64);
    push_str(
        &mut s,
        "), but also specified via CxxQtBuilder::file. Bridge files must be specified via CxxQtBuilder::file or CxxQtBuilder::qml_module, but not both.",
    );
    s
}

/// The settings that a build script collects before it generates, compiles
/// and links the C++ side of its CXX-Qt bridges.
#[derive(Debug)]
pub struct CxxQtBuilder {
    rust_sources: Vec<String>,
    qobject_headers: Vec<QObjectHeaderOpts>,
    qrc_files: Vec<String>,
    qt_modules: Vec<String>,
    qml_modules: Vec<QmlModule>,
    extra_defines: Vec<String>,
    initializers: Vec<String>,
}

impl CxxQtBuilder {
    /// The bridge files given with `file`, in order.
    pub closed spec fn rust_source_paths(&self) -> Seq<Seq<char>> {
        self.rust_sources.deep_view()
    }

    /// The headers given with `qobject_header`, in order.
    pub closed spec fn qobject_header_list(&self) -> Seq<QObjectHeaderOptsView> {
        self.qobject_headers.deep_view()
    }

    /// The `.qrc` files given with `qrc`, in order.
    pub closed spec fn qrc_paths(&self) -> Seq<Seq<char>> {
        self.qrc_files.deep_view()
    }

    /// The Qt modules to link, each once.
    pub closed spec fn qt_module_names(&self) -> Seq<Seq<char>> {
        self.qt_modules.deep_view()
    }

    /// The QML modules given with `qml_module`, in order.
    pub closed spec fn qml_module_list(&self) -> Seq<QmlModuleView> {
        self.qml_modules.deep_view()
    }

    /// The extra C++ defines, each once.
    pub closed spec fn define_names(&self) -> Seq<Seq<char>> {
        self.extra_defines.deep_view()
    }

    /// The initializer code snippets, in order.
    pub closed spec fn initializer_list(&self) -> Seq<Seq<char>> {
        self.initializers.deep_view()
    }

    /// The builder's invariant: the Qt modules and the defines are sets (no
    /// duplicates), `Core` is among the Qt modules, and no bridge file is given
    /// both through `file` and through a QML module.
    pub closed spec fn wf(&self) -> bool {
        &&& self.qt_modules.deep_view().no_duplicates()
        &&& self.qt_modules.deep_view().contains("Core"@)
        &&& self.extra_defines.deep_view().no_duplicates()
        &&& bridge_files_disjoint(self.rust_sources.deep_view(), self.qml_modules.deep_view())
    }

    /// A builder with nothing to build yet; the Qt module `Core` is linked.
    pub fn new() -> (res: CxxQtBuilder)
        ensures
            res.wf(),
            res.rust_source_paths() == Seq::<Seq<char>>::empty(),
            res.qobject_header_list() == Seq::<QObjectHeaderOptsView>::empty(),
            res.qrc_paths() == Seq::<Seq<char>>::empty(),
            res.qt_module_names() == seq!["Core"@],
            res.qml_module_list() == Seq::<QmlModuleView>::empty(),
            res.define_names() == Seq::<Seq<char>>::empty(),
            res.initializer_list() == Seq::<Seq<char>>::empty(),
    {
        let mut qt_modules: Vec<String> = Vec::new();
        qt_modules.push(string_of("Core"));
        let res = CxxQtBuilder {
            rust_sources: Vec::new(),
            qobject_headers: Vec::new(),
            qrc_files: Vec::new(),
            qt_modules,
            qml_modules: Vec::new(),
            extra_defines: Vec::new(),
            initializers: Vec::new(),
        };
        assert(res.qt_modules.deep_view() =~= seq!["Core"@]);
        assert(res.rust_sources.deep_view() =~= Seq::<Seq<char>>::empty());
        assert(res.qobject_headers.deep_view() =~= Seq::<QObjectHeaderOptsView>::empty());
        assert(res.qrc_files.deep_view() =~= Seq::<Seq<char>>::empty());
        assert(res.qml_modules.deep_view() =~= Seq::<QmlModuleView>::empty());
        assert(res.extra_defines.deep_view() =~= Seq::<Seq<char>>::empty());
        assert(res.initializers.deep_view() =~= Seq::<Seq<char>>::empty());
        assert(res.qt_modules.deep_view()[0] == "Core"@);
        res
    }

    /// The first QML module that names `path` as a bridge file, if any.
    pub fn qml_module_declaring(&self, path: &str) -> (res: Option<usize>)
        ensures
            match res {
                Some(j) => {
                    &&& j < self.qml_module_list().len()
                    &&& contains_path(self.qml_module_list()[j as int].rust_files, path@)
                    &&& forall|i: int| 0 <= i < j ==> !contains_path((#[trigger] self.qml_module_list()[i]).rust_files, path@)
                },
                None => !declared_in_modules(self.qml_module_list(), path@),
            },
    {
        let mut j: usize = 0;
        while j < self.qml_modules.len()
            invariant
                j <= self.qml_modules.len(),
                forall|i: int| 0 <= i < j ==> !contains_path((#[trigger] self.qml_modules.deep_view()[i]).rust_files, path@),
            decreases self.qml_modules.len() - j,
        {
            if list_contains_path(&self.qml_modules[j].rust_files, path) {
                return Some(j);
            }
            j = j + 1;
        }
        None
    }

    /// Adds a bridge file, by its path relative to the crate's manifest. The
    /// file must not also be a bridge file of one of the QML modules (the
    /// build script panics there; `qml_module_declaring` tells which module).
    pub fn file(self, rust_source: String) -> (res: CxxQtBuilder)
        requires
            self.wf(),
            !declared_in_modules(self.qml_module_list(), rust_source@),
        ensures
            res.wf(),
            res.rust_source_paths() == self.rust_source_paths().push(rust_source@),
            res.qobject_header_list() == self.qobject_header_list(),
            res.qrc_paths() == self.qrc_paths(),
            res.qt_module_names() == self.qt_module_names(),
            res.qml_module_list() == self.qml_module_list(),
            res.define_names() == self.define_names(),
            res.initializer_list() == self.initializer_list(),
    {
        let mut res = self;
        let ghost s = rust_source@;
        let ghost old_sources = res.rust_sources.deep_view();
        res.rust_sources.push(rust_source);
        assert(res.rust_sources.deep_view() =~= old_sources.push(s));
        let ghost modules = res.qml_modules.deep_view();
        let ghost sources = res.rust_sources.deep_view();
        assert forall|j: int, k: int|
            0 <= j < modules.len() && 0 <= k < modules[j].rust_files.len() implies !contains_path(
            sources,
            #[trigger] modules[j].rust_files[k],
        ) by {
            let f = modules[j].rust_files[k];
            assert(!contains_path(old_sources, f));
            if contains_path(sources, f) {
                let i = choose|i: int| 0 <= i < sources.len() && same_path(#[trigger] sources[i], f);
                if i < old_sources.len() {
                    assert(old_sources[i] == sources[i]);
                    assert(contains_path(old_sources, f));
                } else {
                    assert(same_path(modules[j].rust_files[k], s));
                    assert(contains_path(modules[j].rust_files, s));
                    assert(declared_in_modules(modules, s));
                }
            }
        }
        res
    }

    /// Adds a `.qrc` file whose listed files are compiled into the binary
    /// with Qt's resource system.
    pub fn qrc(self, qrc_file: String) -> (res: CxxQtBuilder)
        requires
            self.wf(),
        ensures
            res.wf(),
            res.rust_source_paths() == self.rust_source_paths(),
            res.qobject_header_list() == self.qobject_header_list(),
            res.qrc_paths() == self.qrc_paths().push(qrc_file@),
            res.qt_module_names() == self.qt_module_names(),
            res.qml_module_list() == self.qml_module_list(),
            res.define_names() == self.define_names(),
            res.initializer_list() == self.initializer_list(),
    {
        let mut res = self;
        let ghost before = res.qrc_files.deep_view();
        res.qrc_files.push(qrc_file);
        assert(res.qrc_files.deep_view() =~= before.push(qrc_file@));
        res
    }

    /// Links the additional Qt module `module` (its name without the `Qt`
    /// prefix, such as `Widgets`); a module that is already linked is not
    /// added again.
    pub fn qt_module(self, module: &str) -> (res: CxxQtBuilder)
        requires
            self.wf(),
        ensures
            res.wf(),
            res.rust_source_paths() == self.rust_source_paths(),
            res.qobject_header_list() == self.qobject_header_list(),
            res.qrc_paths() == self.qrc_paths(),
            res.qt_module_names() == set_insert(self.qt_module_names(), module@),
            res.qml_module_list() == self.qml_module_list(),
            res.define_names() == self.define_names(),
            res.initializer_list() == self.initializer_list(),
    {
        let mut res = self;
        let ghost before = res.qt_modules.deep_view();
        insert_unique(&mut res.qt_modules, string_of(module));
        assert(before.contains("Core"@));
        assert(res.qt_modules.deep_view().contains("Core"@)) by {
            let i = choose|i: int| 0 <= i < before.len() && before[i] == "Core"@;
            if !before.contains(module@) {
                assert(res.qt_modules.deep_view()[i] == "Core"@);
            }
        }
        res
    }

    /// The first bridge file of `qml_module` that is also given through
    /// `file`, by its index in the module's list, if any.
    pub fn first_file_also_given(&self, qml_module: &QmlModule) -> (res: Option<usize>)
        ensures
            match res {
                Some(k) => {
                    &&& k < qml_module.rust_files.len()
                    &&& contains_path(self.rust_source_paths(), qml_module.rust_files.deep_view()[k as int])
                    &&& forall|i: int| 0 <= i < k ==> !contains_path(
                        self.rust_source_paths(),
                        #[trigger] qml_module.rust_files.deep_view()[i],
                    )
                },
                None => forall|i: int| 0 <= i < qml_module.rust_files.len() ==> !contains_path(
                    self.rust_source_paths(),
                    #[trigger] qml_module.rust_files.deep_view()[i],
                ),
            },
    {
        let mut k: usize = 0;
        while k < qml_module.rust_files.len()
            invariant
                k <= qml_module.rust_files.len(),
                forall|i: int| 0 <= i < k ==> !contains_path(
                    self.rust_sources.deep_view(),
                    #[trigger] qml_module.rust_files.deep_view()[i],
                ),
            decreases qml_module.rust_files.len() - k,
        {
            if list_contains_path(&self.rust_sources, qml_module.rust_files[k].as_str()) {
                return Some(k);
            }
            k = k + 1;
        }
        None
    }

    /// Registers a QML module. None of its bridge files may also be given
    /// through `file` (the build script panics there; `first_file_also_given`
    /// tells which file).
    pub fn qml_module(self, qml_module: QmlModule) -> (res: CxxQtBuilder)
        requires
            self.wf(),
            forall|i: int| 0 <= i < qml_module.rust_files.len() ==> !contains_path(
                self.rust_source_paths(),
                #[trigger] qml_module.rust_files.deep_view()[i],
            ),
        ensures
            res.wf(),
            res.rust_source_paths() == self.rust_source_paths(),
            res.qobject_header_list() == self.qobject_header_list(),
            res.qrc_paths() == self.qrc_paths(),
            res.qt_module_names() == self.qt_module_names(),
            res.qml_module_list() == self.qml_module_list().push(qml_module.deep_view()),
            res.define_names() == self.define_names(),
            res.initializer_list() == self.initializer_list(),
    {
        let mut res = self;
        let ghost m = qml_module.deep_view();
        let ghost before = res.qml_modules.deep_view();
        res.qml_modules.push(qml_module);
        assert(res.qml_modules.deep_view() =~= before.push(m));
        let ghost modules = res.qml_modules.deep_view();
        let ghost sources = res.rust_sources.deep_view();
        assert forall|j: int, k: int|
            0 <= j < modules.len() && 0 <= k < modules[j].rust_files.len() implies !contains_path(
            sources,
            #[trigger] modules[j].rust_files[k],
        ) by {
            if j < before.len() {
                assert(modules[j] == before[j]);
            } else {
                assert(modules[j] == m);
                assert(m.rust_files[k] == qml_module.rust_files.deep_view()[k]);
            }
        }
        res
    }

    /// Adds a C++ header with a `Q_OBJECT` class to run moc on.
    pub fn qobject_header(self, opts: QObjectHeaderOpts) -> (res: CxxQtBuilder)
        requires
            self.wf(),
        ensures
            res.wf(),
            res.rust_source_paths() == self.rust_source_paths(),
            res.qobject_header_list() == self.qobject_header_list().push(opts.deep_view()),
            res.qrc_paths() == self.qrc_paths(),
            res.qt_module_names() == self.qt_module_names(),
            res.qml_module_list() == self.qml_module_list(),
            res.define_names() == self.define_names(),
            res.initializer_list() == self.initializer_list(),
    {
        let mut res = self;
        let ghost o = opts.deep_view();
        let ghost before = res.qobject_headers.deep_view();
        res.qobject_headers.push(opts);
        assert(res.qobject_headers.deep_view() =~= before.push(o));
        res
    }

    /// Takes over the defines, initializers and Qt modules of `opts`, and
    /// gives the header files of `opts` to write below `header_root`, in
    /// order (see `opts_header_file`); the caller writes them, the later of
    /// two with one path last.
    pub fn with_opts(self, opts: CxxQtBuildersOpts, header_root: &str) -> (res: (CxxQtBuilder, Vec<HeaderFile>))
        requires
            self.wf(),
        ensures
            res.0.wf(),
            res.0.rust_source_paths() == self.rust_source_paths(),
            res.0.qobject_header_list() == self.qobject_header_list(),
            res.0.qrc_paths() == self.qrc_paths(),
            res.0.qt_module_names() == set_extend(self.qt_module_names(), opts.qt_modules.deep_view()),
            res.0.qml_module_list() == self.qml_module_list(),
            res.0.define_names() == set_extend(self.define_names(), opts.defines.deep_view()),
            res.0.initializer_list() == self.initializer_list() + opts.initializers.deep_view(),
            res.1.deep_view() == opts.headers.deep_view().map_values(
                |h: (Seq<char>, Seq<char>, Seq<char>)| opts_header_file(header_root@, h),
            ),
    {
        let headers = opts_header_files(&opts, header_root);
        let mut res = self;
        let CxxQtBuildersOpts { headers: _, defines, initializers, qt_modules } = opts;
        extend_unique(&mut res.extra_defines, defines);
        extend_strings(&mut res.initializers, &initializers);
        let ghost before = res.qt_modules.deep_view();
        extend_unique(&mut res.qt_modules, qt_modules);
        proof {
            lemma_set_extend_keeps(before, qt_modules.deep_view(), "Core"@);
        }
        (res, headers)
    }
}

impl CxxQtBuilder {
    /// The bridge files given with `file`, in order.
    pub fn rust_sources(&self) -> (res: &Vec<String>)
        ensures
            res.deep_view() == self.rust_source_paths(),
    {
        &self.rust_sources
    }

    /// The headers given with `qobject_header`, in order.
    pub fn qobject_headers(&self) -> (res: &Vec<QObjectHeaderOpts>)
        ensures
            res.deep_view() == self.qobject_header_list(),
    {
        &self.qobject_headers
    }

    /// The `.qrc` files given with `qrc`, in order.
    pub fn qrc_files(&self) -> (res: &Vec<String>)
        ensures
            res.deep_view() == self.qrc_paths(),
    {
        &self.qrc_files
    }

    /// The Qt modules to link, each once.
    pub fn qt_modules(&self) -> (res: &Vec<String>)
        ensures
            res.deep_view() == self.qt_module_names(),
    {
        &self.qt_modules
    }

    /// The QML modules given with `qml_module`, in order.
    pub fn qml_modules(&self) -> (res: &Vec<QmlModule>)
        ensures
            res.deep_view() == self.qml_module_list(),
    {
        &self.qml_modules
    }

    /// The extra C++ defines, each once.
    pub fn extra_defines(&self) -> (res: &Vec<String>)
        ensures
            res.deep_view() == self.define_names(),
    {
        &self.extra_defines
    }

    /// The initializer code snippets, in order.
    pub fn initializers(&self) -> (res: &Vec<String>)
        ensures
            res.deep_view() == self.initializer_list(),
    {
        &self.initializers
    }
}

/// The file of initializer code that a build compiles: its directory
/// `<out dir>/cxx-qt-build/initializers`, its path `<crate name>.cpp` in that
/// directory, its contents (the initializers joined by newlines), and where its
/// object file is exported: `initializers/<crate name>.o`.
#[derive(Debug, PartialEq, Eq)]
pub struct InitializersFile {
    pub directory: String,
    pub path: String,
    pub contents: String,
    pub export_directory: String,
    pub export_file_name: String,
}

impl CxxQtBuilder {
    /// Adds the Qt 5 compatibility code `std_types_source` (which registers
    /// the standard number types with QML) to the initializers when the Qt
    /// version is 5; otherwise changes nothing.
    pub fn setup_qt5_compatibility(&mut self, qt_major: u64, std_types_source: &str)
        requires
            old(self).wf(),
        ensures
            final(self).wf(),
            final(self).rust_source_paths() == old(self).rust_source_paths(),
            final(self).qobject_header_list() == old(self).qobject_header_list(),
            final(self).qrc_paths() == old(self).qrc_paths(),
            final(self).qt_module_names() == old(self).qt_module_names(),
            final(self).qml_module_list() == old(self).qml_module_list(),
            final(self).define_names() == old(self).define_names(),
            final(self).initializer_list() == if qt_major == 5 {
                old(self).initializer_list().push(std_types_source@)
            } else {
                old(self).initializer_list()
            },
    {
        if qt_major == 5 {
            let ghost before = self.initializers.deep_view();
            self.initializers.push(string_of(std_types_source));
            assert(self.initializers.deep_view() =~= before.push(std_types_source@));
        }
    }

    /// The initializers file of the crate `crate_name` (see `InitializersFile`).
    pub fn initializers_file(&self, out_dir: &str, crate_name: &str) -> (res: InitializersFile)
        ensures
            res.directory@ == path_join(path_join(out_dir@, "cxx-qt-build"@), "initializers"@),
            res.path@ == path_join(res.directory@, crate_name@ + ".cpp"@),
            res.contents@ == join(self.initializer_list(), "\n"@),
            res.export_directory@ == "initializers"@,
            res.export_file_name@ == crate_name@ + ".o"@,
    {
        let build_dir = join_path(out_dir, "cxx-qt-build");
        let directory = join_path(build_dir.as_str(), "initializers");
        let mut file_name = string_of(crate_name);
        push_str(&mut file_name, ".cpp");
        let path = join_path(directory.as_str(), file_name.as_str());
        let contents = join_strings(&self.initializers, "\n");
        let mut export_file_name = string_of(crate_name);
        push_str(&mut export_file_name, ".o");
        InitializersFile { directory, path, contents, export_directory: string_of("initializers"), export_file_name }
    }
}

/// The strings of `list` joined by `sep`.
pub fn join_strings(list: &Vec<String>, sep: &str) -> (res: String)
    ensures
        res@ == join(list.deep_view(), sep@),
{
    let mut res = String::new();
    let ghost v = list.deep_view();
    let mut i: usize = 0;
    while i < list.len()
        invariant
            i <= list.len(),
            v == list.deep_view(),
            res@ == join(v.take(i as int), sep@),
        decreases list.len() - i,
    {
        let ghost before = res@;
        if i > 0 {
            push_str(&mut res, sep);
        }
        push_str(&mut res, list[i].as_str());
        assert(v.take(i + 1).drop_last() =~= v.take(i as int));
        if i == 0 {
            assert(join(v.take(1), sep@) == v.take(1)[0]);
            assert(res@ =~= join(v.take(1), sep@));
        } else {
            assert(res@ =~= join(v.take(i + 1), sep@));
        }
        i = i + 1;
    }
    assert(v.take(list.len() as int) =~= v);
    res
}

/// Adding strings to a set keeps what it held.
pub proof fn lemma_set_extend_keeps(v: Seq<Seq<char>>, vs: Seq<Seq<char>>, s: Seq<char>)
    requires
        v.contains(s),
    ensures
        set_extend(v, vs).contains(s),
    decreases vs.len(),
{
    if vs.len() > 0 {
        lemma_set_extend_keeps(v, vs.drop_last(), s);
        let w = set_extend(v, vs.drop_last());
        let i = choose|i: int| 0 <= i < w.len() && w[i] == s;
        if !w.contains(vs.last()) {
            assert(w.push(vs.last())[i] == s);
        }
    }
}

/// Every string added to a set is in it afterwards.
pub proof fn lemma_set_extend_contains(v: Seq<Seq<char>>, vs: Seq<Seq<char>>)
    ensures
        forall|i: int| 0 <= i < vs.len() ==> set_extend(v, vs).contains(#[trigger] vs[i]),
    decreases vs.len(),
{
    if vs.len() > 0 {
        let init = vs.drop_last();
        lemma_set_extend_contains(v, init);
        let w = set_extend(v, init);
        assert forall|i: int| 0 <= i < vs.len() implies set_extend(v, vs).contains(#[trigger] vs[i]) by {
            if i < vs.len() - 1 {
                assert(init[i] == vs[i]);
                assert(w.contains(vs[i]));
                lemma_set_insert_keeps(w, vs.last(), vs[i]);
            } else {
                if !w.contains(vs.last()) {
                    assert(w.push(vs.last())[w.len() as int] == vs.last());
                }
            }
        }
    }
}

/// Adding a string to a set keeps what it held.
proof fn lemma_set_insert_keeps(v: Seq<Seq<char>>, s: Seq<char>, t: Seq<char>)
    requires
        v.contains(t),
    ensures
        set_insert(v, s).contains(t),
{
    if !v.contains(s) {
        let i = choose|i: int| 0 <= i < v.len() && v[i] == t;
        assert(v.push(s)[i] == t);
    }
}

/// The Qt modules of the options are linked: after `with_opts` every module of
/// the options is among the builder's modules, and so are the modules it had.
pub proof fn lemma_opts_modules_linked(before: Seq<Seq<char>>, opts_modules: Seq<Seq<char>>)
    ensures
        forall|i: int| 0 <= i < opts_modules.len() ==> set_extend(before, opts_modules).contains(#[trigger] opts_modules[i]),
        forall|m: Seq<char>| before.contains(m) ==> #[trigger] set_extend(before, opts_modules).contains(m),
{
    lemma_set_extend_contains(before, opts_modules);
    assert forall|m: Seq<char>| before.contains(m) implies #[trigger] set_extend(before, opts_modules).contains(m) by {
        lemma_set_extend_keeps(before, opts_modules, m);
    }
}

/// The directory of a header from `CxxQtBuildersOpts`: the header root, or
/// the named directory below it.
pub open spec fn opts_header_directory(header_root: Seq<char>, dir_name: Seq<char>) -> Seq<char> {
    if dir_name.len() == 0 {
        header_root
    } else {
        path_join(header_root, dir_name)
    }
}

/// The file for the header `(contents, dir_name, file_name)` of
/// `CxxQtBuildersOpts` below `header_root`: its directory, its path (the file
/// name in that directory) and its contents.
pub open spec fn opts_header_file(header_root: Seq<char>, header: (Seq<char>, Seq<char>, Seq<char>)) -> (Seq<char>, Seq<char>, Seq<char>) {
    let (contents, dir_name, file_name) = header;
    let directory = opts_header_directory(header_root, dir_name);
    (directory, path_join(directory, file_name), contents)
}

/// The header files that `opts` asks to write below `header_root`, in order:
/// each in its directory, under its file name.
pub fn opts_header_files(opts: &CxxQtBuildersOpts, header_root: &str) -> (res: Vec<HeaderFile>)
    ensures
        res.deep_view() == opts.headers.deep_view().map_values(
            |h: (Seq<char>, Seq<char>, Seq<char>)| opts_header_file(header_root@, h),
        ),
{
    let mut res: Vec<HeaderFile> = Vec::new();
    let ghost want = opts.headers.deep_view().map_values(
        |h: (Seq<char>, Seq<char>, Seq<char>)| opts_header_file(header_root@, h),
    );
    let mut i: usize = 0;
    while i < opts.headers.len()
        invariant
            i <= opts.headers.len(),
            want == opts.headers.deep_view().map_values(
                |h: (Seq<char>, Seq<char>, Seq<char>)| opts_header_file(header_root@, h),
            ),
            res.deep_view() == want.take(i as int),
        decreases opts.headers.len() - i,
    {
        let (contents, dir_name, file_name) = &opts.headers[i];
        assert(opts.headers.deep_view()[i as int] == (contents@, dir_name@, file_name@));
        let directory = if dir_name.as_str().unicode_len() == 0 {
            string_of(header_root)
        } else {
            join_path(header_root, dir_name.as_str())
        };
        let path = join_path(directory.as_str(), file_name.as_str());
        let ghost before = res.deep_view();
        res.push(HeaderFile { directory, path, contents: contents.clone() });
        assert(res.deep_view() =~= before.push(want[i as int]));
        assert(want.take(i + 1) =~= want.take(i as int).push(want[i as int]));
        i = i + 1;
    }
    assert(want.take(opts.headers.len() as int) =~= want);
    res
}

/// The Qt module `Core` is always linked: every well-formed builder has it.
pub proof fn lemma_core_module_linked(b: &CxxQtBuilder)
    requires
        b.wf(),
    ensures
        b.qt_module_names().contains("Core"@),
        b.qt_module_names().no_duplicates(),
        b.define_names().no_duplicates(),
{
}

/// A bridge file is given either through `file` or through a QML module, never
/// both: in a well-formed builder no path given through `file` is the same path
/// as a bridge file of a QML module.
pub proof fn lemma_bridge_files_given_once(b: &CxxQtBuilder, path: Seq<char>)
    requires
        b.wf(),
        contains_path(b.rust_source_paths(), path),
    ensures
        !declared_in_modules(b.qml_module_list(), path),
{
    let sources = b.rust_source_paths();
    let modules = b.qml_module_list();
    if declared_in_modules(modules, path) {
        let j = choose|j: int| 0 <= j < modules.len() && contains_path((#[trigger] modules[j]).rust_files, path);
        let k = choose|k: int| 0 <= k < modules[j].rust_files.len() && same_path(#[trigger] modules[j].rust_files[k], path);
        let i = choose|i: int| 0 <= i < sources.len() && same_path(#[trigger] sources[i], path);
        assert(same_path(sources[i], modules[j].rust_files[k]));
        assert(contains_path(sources, modules[j].rust_files[k]));
    }
}

/// Linking a Qt module twice is the same as linking it once.
pub proof fn lemma_qt_module_idempotent(modules: Seq<Seq<char>>, module: Seq<char>)
    ensures
        set_insert(set_insert(modules, module), module) == set_insert(modules, module),
{
    if !modules.contains(module) {
        assert(modules.push(module)[modules.len() as int] == module);
    }
}

} // verus!

//! Resolution of an LLVM/MLIR installation.
//!
//! Given the environment configuration, the outputs of the version-query
//! tool, and a snapshot of the relevant filesystem facts, resolution follows
//! a strict precedence chain: the versioned installation-prefix variable
//! first, then a probe of the query tool on the search path, then the
//! explicit triple of build/source directory variables, and otherwise a
//! fatal configuration error. A resolved installation names one library
//! directory and an ordered, duplicate-free list of header directories.

use vstd::prelude::*;
use vstd::string::StringExecFns;
use crate::cmake::cache_recorded_source_dir;
use crate::cmake::cache_scan_spec;
use crate::fs::FsSnapshot;
use crate::paths::join_spec;
use crate::paths::parent_spec;
use crate::paths::path_join;
use crate::paths::path_parent;
use crate::text::dedup_in_order;
use crate::text::dedup_views;
use crate::text::find_char;
use crate::text::lemma_dedup_strings_views;
use crate::text::lemma_dedup_views_properties;
use crate::text::lemma_find_char_is_first;
use crate::text::parse_decimal;
use crate::text::parse_decimal_spec;
use crate::text::str_find_char;
use crate::text::str_trim;
use crate::text::string_views;
use crate::text::trim_spec;
use crate::text::view_opt;
use crate::LLVM_MAJOR_VERSION;

verus! {

/// The mathematical content of a resolved installation: the library
/// directory and the ordered header directories.
pub ghost struct ConfigModel {
    pub lib_dir: Seq<char>,
    pub include_dirs: Seq<Seq<char>>,
}

impl ConfigModel {
    /// A usable resolution names at least one header directory and never
    /// names one twice.
    pub open spec fn wf(self) -> bool {
        self.include_dirs.len() > 0 && (forall|i: int, j: int|
            0 <= i < j < self.include_dirs.len() ==> self.include_dirs[i]
                != self.include_dirs[j])
    }
}

/// A resolved installation: where the static libraries live and where, in
/// search order, the headers live.
#[derive(Clone, Debug)]
pub struct MlirConfig {
    pub lib_dir: String,
    pub include_dirs: Vec<String>,
}

impl View for MlirConfig {
    type V = ConfigModel;

    open spec fn view(&self) -> ConfigModel {
        ConfigModel { lib_dir: self.lib_dir@, include_dirs: string_views(self.include_dirs@) }
    }
}

/// The environment configuration consulted by resolution.
#[derive(Clone, Debug)]
pub struct EnvConfig {
    /// The versioned installation-prefix variable.
    pub prefix: Option<String>,
    /// The build-output-root variable.
    pub mlir_build_dir: Option<String>,
    /// The alias of the build-output-root variable.
    pub llvm_build_dir: Option<String>,
    /// The source root of the secondary interface project.
    pub mlir_src_dir: Option<String>,
    /// The source root of the primary project.
    pub llvm_src_dir: Option<String>,
}

/// What one invocation of the version-query tool reported: the standard
/// output of each of its three queries, where the query ran and succeeded.
#[derive(Clone, Debug)]
pub struct ToolProbe {
    pub version_output: Option<String>,
    pub libdir_output: Option<String>,
    pub includedir_output: Option<String>,
}

impl ToolProbe {
    /// A probe of a tool that was absent or failed outright.
    pub fn absent() -> (r: Self)
        ensures
            r.version_output is None,
            r.libdir_output is None,
            r.includedir_output is None,
    {
        ToolProbe { version_output: None, libdir_output: None, includedir_output: None }
    }
}

/// A configuration error: no strategy produced an installation.
#[derive(Clone, Copy, Debug, PartialEq, Eq, Structural)]
pub enum ResolveError {
    NoInstallationFound,
}

impl ResolveError {
    /// The remediation message for a failed resolution, naming every
    /// configuration option.
    pub fn message(&self) -> (r: String)
        ensures
            r@ =~= (
            "Could not find MLIR/LLVM installation.\n\nPlease set one of the following:\n\n1. MLIR_SYS_210_PREFIX - Path to LLVM build or installation directory\n   Example: export MLIR_SYS_210_PREFIX=/path/to/llvm-project/build\n\n2. For development builds, set all three:\n   - MLIR_BUILD_DIR or LLVM_BUILD_DIR - Path to LLVM build directory\n   - MLIR_SRC_DIR - Path to MLIR source directory\n   - LLVM_SRC_DIR - Path to LLVM source directory\n\n3. Or ensure llvm-config is in your PATH\n")@,
    {
        "Could not find MLIR/LLVM installation.\n\nPlease set one of the following:\n\n1. MLIR_SYS_210_PREFIX - Path to LLVM build or installation directory\n   Example: export MLIR_SYS_210_PREFIX=/path/to/llvm-project/build\n\n2. For development builds, set all three:\n   - MLIR_BUILD_DIR or LLVM_BUILD_DIR - Path to LLVM build directory\n   - MLIR_SRC_DIR - Path to MLIR source directory\n   - LLVM_SRC_DIR - Path to LLVM source directory\n\n3. Or ensure llvm-config is in your PATH\n".to_owned()
    }
}

/// An optional path as a candidate list: one element when present.
pub open spec fn opt_seq(o: Option<Seq<char>>) -> Seq<Seq<char>> {
    match o {
        Some(x) => seq![x],
        None => Seq::empty(),
    }
}

/// The generated-header directory nested in a build tree, when present.
pub open spec fn generated_include_spec(root: Seq<char>, fs: FsSnapshot) -> Option<Seq<char>> {
    let p = join_spec(root, "tools/mlir/include"@);
    if fs.has_path(p) {
        Some(p)
    } else {
        None
    }
}

/// The root's own header directory, when present.
pub open spec fn root_include_spec(root: Seq<char>, fs: FsSnapshot) -> Option<Seq<char>> {
    let p = join_spec(root, "include"@);
    if fs.has_path(p) {
        Some(p)
    } else {
        None
    }
}

/// The primary project's source checkout, recovered from the build metadata
/// when it records an existing path, and otherwise by the sibling-directory
/// naming convention (the build directory's sibling named after the primary
/// project, accepted when it has headers).
pub open spec fn llvm_source_spec(root: Seq<char>, fs: FsSnapshot) -> Option<Seq<char>> {
    let cache = join_spec(root, "CMakeCache.txt"@);
    let recorded = match fs.content_spec(cache) {
        Some(c) => cache_scan_spec(c, fs),
        None => None,
    };
    if recorded is Some {
        recorded
    } else {
        match parent_spec(root) {
            None => None,
            Some(par) => {
                let l = join_spec(par, "llvm"@);
                if fs.has_path(join_spec(l, "include"@)) {
                    Some(l)
                } else {
                    None
                }
            },
        }
    }
}

/// The primary project's source header directory, when recoverable and
/// present.
pub open spec fn primary_include_spec(root: Seq<char>, fs: FsSnapshot) -> Option<Seq<char>> {
    match llvm_source_spec(root, fs) {
        Some(l) => {
            let p = join_spec(l, "include"@);
            if fs.has_path(p) {
                Some(p)
            } else {
                None
            }
        },
        None => None,
    }
}

/// The secondary project's source header directory: a directory named after
/// that project adjacent to the primary project's source root, when present.
pub open spec fn secondary_include_spec(root: Seq<char>, fs: FsSnapshot) -> Option<Seq<char>> {
    match llvm_source_spec(root, fs) {
        Some(l) => match parent_spec(l) {
            Some(par) => {
                let p = join_spec(par, "mlir/include"@);
                if fs.has_path(p) {
                    Some(p)
                } else {
                    None
                }
            },
            None => None,
        },
        None => None,
    }
}

/// The major version number at the front of the tool's version output.
pub open spec fn version_major_spec(s: Seq<char>) -> Option<u64> {
    let d = find_char(s, '.');
    parse_decimal_spec(
        if d == -1 {
            s
        } else {
            s.take(d)
        },
    )
}

/// The major version a probe reported, if its version query succeeded and
/// parsed.
pub open spec fn probe_reported_major(probe: ToolProbe) -> Option<u64> {
    match probe.version_output {
        Some(v) => version_major_spec(v@),
        None => None,
    }
}

/// The installation a tool probe describes: present exactly when the version
/// output parses and both directory queries succeeded. The reported major
/// version is not required to match [`LLVM_MAJOR_VERSION`]: a mismatch is a
/// warning for the caller, never a failure. The reported library directory's
/// parent is classified as a possible build tree, and the header directories
/// are, in order: the generated headers, the build tree's own headers, the
/// tool-reported header directory, then the recovered source headers of the
/// two projects — first occurrences only.
pub open spec fn tool_probe_config_spec(probe: ToolProbe, fs: FsSnapshot) -> Option<ConfigModel> {
    match probe.version_output {
        None => None,
        Some(v) => match version_major_spec(v@) {
            None => None,
            Some(_) => match probe.libdir_output {
                None => None,
                Some(ld) => match probe.includedir_output {
                    None => None,
                    Some(inc) => {
                        let lib = trim_spec(ld@);
                        let incd = trim_spec(inc@);
                        let cands = match parent_spec(lib) {
                            None => seq![incd],
                            Some(b) => opt_seq(generated_include_spec(b, fs)) + opt_seq(
                                root_include_spec(b, fs),
                            ) + seq![incd] + opt_seq(primary_include_spec(b, fs)) + opt_seq(
                                secondary_include_spec(b, fs),
                            ),
                        };
                        Some(
                            ConfigModel { lib_dir: lib, include_dirs: dedup_views(cands) },
                        )
                    },
                },
            },
        },
    }
}

/// The installation assembled from a prefix by direct layout classification:
/// the prefix's `lib` directory, and the header directories of the build-tree
/// classification in priority order — falling back to the prefix's own
/// header directory, even unseen, when the classification finds nothing.
pub open spec fn manual_prefix_config_spec(prefix: Seq<char>, fs: FsSnapshot) -> ConfigModel {
    let cands = opt_seq(generated_include_spec(prefix, fs)) + opt_seq(
        root_include_spec(prefix, fs),
    ) + opt_seq(primary_include_spec(prefix, fs)) + opt_seq(secondary_include_spec(prefix, fs));
    let incs = if cands.len() == 0 {
        seq![join_spec(prefix, "include"@)]
    } else {
        dedup_views(cands)
    };
    ConfigModel { lib_dir: join_spec(prefix, "lib"@), include_dirs: incs }
}

/// The installation the prefix strategy yields: when the prefix carries its
/// own copy of the query tool and that tool's probe describes an
/// installation, that description; otherwise the direct layout
/// classification of the prefix. This strategy always yields a result.
pub open spec fn prefix_config_spec(
    prefix: Seq<char>,
    fs: FsSnapshot,
    probe: ToolProbe,
) -> ConfigModel {
    if fs.has_path(join_spec(prefix, "bin/llvm-config"@)) {
        match tool_probe_config_spec(probe, fs) {
            Some(c) => c,
            None => manual_prefix_config_spec(prefix, fs),
        }
    } else {
        manual_prefix_config_spec(prefix, fs)
    }
}

/// The installation the explicit-triple strategy yields, with no filesystem
/// probing: generated and build-tree headers first, then the two source
/// header roots.
pub open spec fn triple_config_spec(
    build: Seq<char>,
    mlir_src: Seq<char>,
    llvm_src: Seq<char>,
) -> ConfigModel {
    ConfigModel {
        lib_dir: join_spec(build, "lib"@),
        include_dirs: dedup_views(
            seq![
                join_spec(build, "tools/mlir/include"@),
                join_spec(build, "include"@),
                join_spec(mlir_src, "include"@),
                join_spec(llvm_src, "include"@),
            ],
        ),
    }
}

/// The build-output root the explicit-triple strategy uses: the primary
/// variable, or its alias.
pub open spec fn build_dir_choice(env: EnvConfig) -> Option<String> {
    match env.mlir_build_dir {
        Some(b) => Some(b),
        None => env.llvm_build_dir,
    }
}

/// What resolution yields: the first strategy that succeeds, in the fixed
/// order — installation-prefix variable, tool probe on the search path,
/// explicit triple — and nothing when all fail.
pub open spec fn resolve_spec(
    env: EnvConfig,
    fs: FsSnapshot,
    prefix_probe: ToolProbe,
    path_probe: ToolProbe,
) -> Option<ConfigModel> {
    match env.prefix {
        Some(p) => Some(prefix_config_spec(p@, fs, prefix_probe)),
        None => match tool_probe_config_spec(path_probe, fs) {
            Some(c) => Some(c),
            None => match build_dir_choice(env) {
                Some(b) => match env.mlir_src_dir {
                    Some(m) => match env.llvm_src_dir {
                        Some(l) => Some(triple_config_spec(b@, m@, l@)),
                        None => None,
                    },
                    None => None,
                },
                None => None,
            },
        },
    }
}

/// Parse the major version number at the front of a version output.
pub fn parse_version_major(s: &str) -> (r: Option<u64>)
    ensures
        r == version_major_spec(s@),
{
    match str_find_char(s, '.') {
        Some(d) => {
            proof {
                lemma_find_char_is_first(s@, '.');
                assert(s@.subrange(0, d as int) =~= s@.take(d as int));
            }
            parse_decimal(vstd::string::StrSliceExecFns::substring_char(s, 0, d))
        },
        None => parse_decimal(s),
    }
}

/// Recover the primary project's source checkout from a build tree, exactly
/// as [`llvm_source_spec`] says: the metadata recording wins over the
/// sibling-directory convention.
pub fn find_llvm_source_from_build(build_dir: &String, fs: &FsSnapshot) -> (r: Option<String>)
    ensures
        view_opt(r) == llvm_source_spec(build_dir@, *fs),
{
    let cache_path = path_join(build_dir.as_str(), "CMakeCache.txt");
    let recorded: Option<String> = match fs.read_file(&cache_path) {
        Some(c) => cache_recorded_source_dir(c.as_str(), fs),
        None => None,
    };
    match recorded {
        Some(p) => Some(p),
        None => {
            match path_parent(build_dir.as_str()) {
                None => None,
                Some(par) => {
                    let l = path_join(par.as_str(), "llvm");
                    let linc = path_join(l.as_str(), "include");
                    if fs.path_exists(&linc) {
                        Some(l)
                    } else {
                        None
                    }
                },
            }
        },
    }
}

/// The header directories a build-tree classification finds, one field per
/// priority rank of the chain.
#[derive(Clone, Debug)]
pub struct BuildTreeLayout {
    pub generated_include: Option<String>,
    pub root_include: Option<String>,
    pub primary_source_include: Option<String>,
    pub secondary_source_include: Option<String>,
}

/// Classify a root directory as a build tree or installed prefix, recovering
/// each header directory of the priority chain that is present.
pub fn inspect_build_tree(root: &String, fs: &FsSnapshot) -> (r: BuildTreeLayout)
    ensures
        view_opt(r.generated_include) == generated_include_spec(root@, *fs),
        view_opt(r.root_include) == root_include_spec(root@, *fs),
        view_opt(r.primary_source_include) == primary_include_spec(root@, *fs),
        view_opt(r.secondary_source_include) == secondary_include_spec(root@, *fs),
{
    let gen_path = path_join(root.as_str(), "tools/mlir/include");
    let generated_include: Option<String> = if fs.path_exists(&gen_path) {
        Some(gen_path)
    } else {
        None
    };
    let inc_path = path_join(root.as_str(), "include");
    let root_include: Option<String> = if fs.path_exists(&inc_path) {
        Some(inc_path)
    } else {
        None
    };
    let source = find_llvm_source_from_build(root, fs);
    let primary_source_include: Option<String> = match &source {
        Some(l) => {
            let li = path_join(l.as_str(), "include");
            if fs.path_exists(&li) {
                Some(li)
            } else {
                None
            }
        },
        None => None,
    };
    let secondary_source_include: Option<String> = match &source {
        Some(l) => {
            match path_parent(l.as_str()) {
                Some(par) => {
                    let mi = path_join(par.as_str(), "mlir/include");
                    if fs.path_exists(&mi) {
                        Some(mi)
                    } else {
                        None
                    }
                },
                None => None,
            }
        },
        None => None,
    };
    BuildTreeLayout { generated_include, root_include, primary_source_include, secondary_source_include }
}

/// Evaluate a probe of the version-query tool, exactly as
/// [`tool_probe_config_spec`] says, and report the major version the tool
/// announced, for the caller's warning when it is not the expected one.
pub fn try_llvm_config(probe: &ToolProbe, fs: &FsSnapshot) -> (r: (
    Option<MlirConfig>,
    Option<u64>,
))
    ensures
        match r.0 {
            Some(c) => tool_probe_config_spec(*probe, *fs) == Some(c@),
            None => tool_probe_config_spec(*probe, *fs) is None,
        },
        r.1 == probe_reported_major(*probe),
{
    let major: Option<u64> = match &probe.version_output {
        Some(v) => parse_version_major(v.as_str()),
        None => None,
    };
    if major.is_none() {
        return (None, major);
    }
    let ld: &String = match &probe.libdir_output {
        Some(ld) => ld,
        None => {
            return (None, major);
        },
    };
    let inc: &String = match &probe.includedir_output {
        Some(inc) => inc,
        None => {
            return (None, major);
        },
    };
    let lib = str_trim(ld.as_str());
    let incd = str_trim(inc.as_str());
    let ghost incd_view = incd@;
    let mut cands: Vec<String> = Vec::new();
    match path_parent(lib.as_str()) {
        None => {
            cands.push(incd);
            proof {
                assert(string_views(cands@) =~~= seq![incd_view]);
            }
        },
        Some(b) => {
            let layout = inspect_build_tree(&b, fs);
            match layout.generated_include {
                Some(g) => cands.push(g),
                None => {},
            }
            match layout.root_include {
                Some(g) => cands.push(g),
                None => {},
            }
            cands.push(incd);
            match layout.primary_source_include {
                Some(g) => cands.push(g),
                None => {},
            }
            match layout.secondary_source_include {
                Some(g) => cands.push(g),
                None => {},
            }
            proof {
                assert(string_views(cands@) =~~= opt_seq(generated_include_spec(b@, *fs))
                    + opt_seq(root_include_spec(b@, *fs)) + seq![incd_view] + opt_seq(
                    primary_include_spec(b@, *fs),
                ) + opt_seq(secondary_include_spec(b@, *fs)));
            }
        },
    }
    proof {
        lemma_dedup_strings_views(cands@);
    }
    let include_dirs = dedup_in_order(cands);
    (Some(MlirConfig { lib_dir: lib, include_dirs }), major)
}

/// Resolve an installation from the prefix named by the versioned
/// environment variable, exactly as [`prefix_config_spec`] says: the
/// prefix's own query tool wins when present and usable, and otherwise the
/// layout is classified directly. `probe` is the outcome of running the
/// prefix's own copy of the query tool, where the caller ran it.
pub fn config_from_prefix(prefix: &String, fs: &FsSnapshot, probe: &ToolProbe) -> (r: MlirConfig)
    ensures
        r@ == prefix_config_spec(prefix@, *fs, *probe),
{
    let lc = path_join(prefix.as_str(), "bin/llvm-config");
    if fs.path_exists(&lc) {
        let (cfg, _major) = try_llvm_config(probe, fs);
        match cfg {
            Some(c) => {
                return c;
            },
            None => {},
        }
    }
    let layout = inspect_build_tree(prefix, fs);
    let mut cands: Vec<String> = Vec::new();
    match layout.generated_include {
        Some(g) => cands.push(g),
        None => {},
    }
    match layout.root_include {
        Some(g) => cands.push(g),
        None => {},
    }
    match layout.primary_source_include {
        Some(g) => cands.push(g),
        None => {},
    }
    match layout.secondary_source_include {
        Some(g) => cands.push(g),
        None => {},
    }
    proof {
        assert(string_views(cands@) =~~= opt_seq(generated_include_spec(prefix@, *fs)) + opt_seq(
            root_include_spec(prefix@, *fs),
        ) + opt_seq(primary_include_spec(prefix@, *fs)) + opt_seq(
            secondary_include_spec(prefix@, *fs),
        ));
    }
    let lib_dir = path_join(prefix.as_str(), "lib");
    if cands.len() == 0 {
        let mut include_dirs: Vec<String> = Vec::new();
        include_dirs.push(path_join(prefix.as_str(), "include"));
        proof {
            assert(string_views(include_dirs@) =~~= seq![join_spec(prefix@, "include"@)]);
        }
        MlirConfig { lib_dir, include_dirs }
    } else {
        proof {
            lemma_dedup_strings_views(cands@);
        }
        let include_dirs = dedup_in_order(cands);
        MlirConfig { lib_dir, include_dirs }
    }
}

/// Construct an installation directly from the explicit triple of
/// directories, with no filesystem probing, exactly as
/// [`triple_config_spec`] says.
pub fn config_from_build_dirs(
    build_dir: &String,
    mlir_src: &String,
    llvm_src: &String,
) -> (r: MlirConfig)
    ensures
        r@ == triple_config_spec(build_dir@, mlir_src@, llvm_src@),
{
    let mut cands: Vec<String> = Vec::new();
    cands.push(path_join(build_dir.as_str(), "tools/mlir/include"));
    cands.push(path_join(build_dir.as_str(), "include"));
    cands.push(path_join(mlir_src.as_str(), "include"));
    cands.push(path_join(llvm_src.as_str(), "include"));
    proof {
        assert(string_views(cands@) =~~= seq![
            join_spec(build_dir@, "tools/mlir/include"@),
            join_spec(build_dir@, "include"@),
            join_spec(mlir_src@, "include"@),
            join_spec(llvm_src@, "include"@),
        ]);
        lemma_dedup_strings_views(cands@);
    }
    let include_dirs = dedup_in_order(cands);
    MlirConfig { lib_dir: path_join(build_dir.as_str(), "lib"), include_dirs }
}

/// Every resolution that succeeds is well-formed: at least one header
/// directory, none listed twice.
pub proof fn lemma_resolve_wf(
    env: EnvConfig,
    fs: FsSnapshot,
    prefix_probe: ToolProbe,
    path_probe: ToolProbe,
)
    ensures
        resolve_spec(env, fs, prefix_probe, path_probe) matches Some(c) ==> c.wf(),
{
    lemma_tool_probe_wf(prefix_probe, fs);
    lemma_tool_probe_wf(path_probe, fs);
    if env.prefix is Some {
        let p = env.prefix->0;
        let cands = opt_seq(generated_include_spec(p@, fs)) + opt_seq(root_include_spec(p@, fs))
            + opt_seq(primary_include_spec(p@, fs)) + opt_seq(secondary_include_spec(p@, fs));
        lemma_dedup_views_properties(cands);
    } else if tool_probe_config_spec(path_probe, fs) is Some {
    } else if build_dir_choice(env) is Some && env.mlir_src_dir is Some && env.llvm_src_dir
        is Some {
        let b = build_dir_choice(env)->0;
        let m = env.mlir_src_dir->0;
        let l = env.llvm_src_dir->0;
        lemma_dedup_views_properties(
            seq![
                join_spec(b@, "tools/mlir/include"@),
                join_spec(b@, "include"@),
                join_spec(m@, "include"@),
                join_spec(l@, "include"@),
            ],
        );
    }
}

proof fn lemma_tool_probe_wf(probe: ToolProbe, fs: FsSnapshot)
    ensures
        tool_probe_config_spec(probe, fs) matches Some(c) ==> c.wf(),
{
    if tool_probe_config_spec(probe, fs) is Some {
        let ld = probe.libdir_output->0;
        let inc = probe.includedir_output->0;
        let lib = trim_spec(ld@);
        let incd = trim_spec(inc@);
        match parent_spec(lib) {
            None => {
                lemma_dedup_views_properties(seq![incd]);
            },
            Some(b) => {
                let cands = opt_seq(generated_include_spec(b, fs)) + opt_seq(
                    root_include_spec(b, fs),
                ) + seq![incd] + opt_seq(primary_include_spec(b, fs)) + opt_seq(
                    secondary_include_spec(b, fs),
                );
                lemma_dedup_views_properties(cands);
            },
        }
    }
}

/// Resolve the installation, trying the strategies in their fixed order,
/// exactly as [`resolve_spec`] says. `prefix_probe` is the outcome of running
/// the query tool carried by the prefix named in the environment;
/// `path_probe` the outcome of running the query tool found on the search
/// path. A failed resolution is a configuration error the caller must treat
/// as fatal; its message names every option.
pub fn find_mlir_config(
    env: &EnvConfig,
    fs: &FsSnapshot,
    prefix_probe: &ToolProbe,
    path_probe: &ToolProbe,
) -> (r: Result<MlirConfig, ResolveError>)
    ensures
        match r {
            Ok(c) => resolve_spec(*env, *fs, *prefix_probe, *path_probe) == Some(c@) && c@.wf(),
            Err(e) => resolve_spec(*env, *fs, *prefix_probe, *path_probe) is None && e
                == ResolveError::NoInstallationFound,
        },
{
    proof {
        lemma_resolve_wf(*env, *fs, *prefix_probe, *path_probe);
    }
    match &env.prefix {
        Some(p) => {
            return Ok(config_from_prefix(p, fs, prefix_probe));
        },
        None => {},
    }
    let (cfg, _major) = try_llvm_config(path_probe, fs);
    match cfg {
        Some(c) => {
            return Ok(c);
        },
        None => {},
    }
    let build_dir: &String = match &env.mlir_build_dir {
        Some(b) => b,
        None => match &env.llvm_build_dir {
            Some(b) => b,
            None => {
                return Err(ResolveError::NoInstallationFound);
            },
        },
    };
    let mlir_src: &String = match &env.mlir_src_dir {
        Some(m) => m,
        None => {
            return Err(ResolveError::NoInstallationFound);
        },
    };
    let llvm_src: &String = match &env.llvm_src_dir {
        Some(l) => l,
        None => {
            return Err(ResolveError::NoInstallationFound);
        },
    };
    Ok(config_from_build_dirs(build_dir, mlir_src, llvm_src))
}

/// Precedence law. The strategies are consulted in a fixed order and the
/// first success is terminal: a set installation-prefix variable wins
/// outright, whatever else is available; the tool probe answers only when
/// the prefix variable is unset; the explicit triple is consulted only when
/// both earlier strategies failed; and resolution fails exactly when all
/// three do.
pub proof fn lemma_resolution_precedence(
    env: EnvConfig,
    fs: FsSnapshot,
    prefix_probe: ToolProbe,
    path_probe: ToolProbe,
)
    ensures
        env.prefix matches Some(p) ==> resolve_spec(env, fs, prefix_probe, path_probe) == Some(
            prefix_config_spec(p@, fs, prefix_probe),
        ),
        env.prefix is None && tool_probe_config_spec(path_probe, fs) is Some ==> resolve_spec(
            env,
            fs,
            prefix_probe,
            path_probe,
        ) == tool_probe_config_spec(path_probe, fs),
        env.prefix is None && tool_probe_config_spec(path_probe, fs) is None && build_dir_choice(
            env,
        ) is Some && env.mlir_src_dir is Some && env.llvm_src_dir is Some ==> resolve_spec(
            env,
            fs,
            prefix_probe,
            path_probe,
        ) == Some(
            triple_config_spec(
                build_dir_choice(env)->0@,
                env.mlir_src_dir->0@,
                env.llvm_src_dir->0@,
            ),
        ),
        env.prefix is None && tool_probe_config_spec(path_probe, fs) is None && (build_dir_choice(
            env,
        ) is None || env.mlir_src_dir is None || env.llvm_src_dir is None) ==> resolve_spec(
            env,
            fs,
            prefix_probe,
            path_probe,
        ) is None,
{
}

/// Leniency of the tool probe: a reported major version other than
/// [`LLVM_MAJOR_VERSION`] never makes the probe fail — as long as the
/// version output parses at all and both directory queries answered, the
/// probe describes an installation. The mismatch is surfaced as a warning
/// only.
pub proof fn lemma_version_mismatch_is_lenient(probe: ToolProbe, fs: FsSnapshot, m: u64)
    requires
        probe_reported_major(probe) == Some(m),
        m != LLVM_MAJOR_VERSION,
        probe.libdir_output is Some,
        probe.includedir_output is Some,
    ensures
        tool_probe_config_spec(probe, fs) is Some,
{
}

/// Metadata overrides convention: whenever the build tree's metadata file is
/// readable and some line of it records a source directory naming an
/// existing path, the recovered source checkout is exactly what the metadata
/// scan yields — the value of the first such line — and the
/// sibling-directory naming convention is never consulted.
pub proof fn lemma_metadata_overrides_convention(root: Seq<char>, fs: FsSnapshot)
    requires
        ({
            let cache = join_spec(root, "CMakeCache.txt"@);
            fs.content_spec(cache) matches Some(c) && (exists|i: int|
                0 <= i < crate::cmake::split_lines(c).len()
                    && #[trigger] crate::cmake::records_existing_source(
                    crate::cmake::split_lines(c)[i],
                    fs,
                ))
        }),
    ensures
        ({
            let cache = join_spec(root, "CMakeCache.txt"@);
            let c = fs.content_spec(cache)->0;
            llvm_source_spec(root, fs) == cache_scan_spec(c, fs) && cache_scan_spec(c, fs)
                is Some
        }),
{
    let cache = join_spec(root, "CMakeCache.txt"@);
    let c = fs.content_spec(cache)->0;
    crate::cmake::lemma_cache_scan_characterization(c, fs);
}

/// Whatever the metadata scan recovers names an existing path of the
/// snapshot.
pub proof fn lemma_cache_scan_yields_existing(content: Seq<char>, fs: FsSnapshot)
    ensures
        cache_scan_spec(content, fs) matches Some(v) ==> fs.has_path(v),
    decreases content.len(),
{
    if content.len() > 0 {
        let nl = find_char(content, '\n');
        if 0 <= nl && nl < content.len() {
            lemma_cache_scan_yields_existing(content.skip(nl + 1), fs);
        }
    }
}

} // verus!

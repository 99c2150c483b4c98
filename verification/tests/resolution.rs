//! End-to-end tests of installation resolution: the precedence chain, the
//! build-tree classification, and the metadata recovery.

use mlir_sys::fs::FsFile;
use mlir_sys::fs::FsSnapshot;
use mlir_sys::cmake::cache_recorded_source_dir;
use mlir_sys::resolver::EnvConfig;
use mlir_sys::resolver::ResolveError;
use mlir_sys::resolver::ToolProbe;
use mlir_sys::resolver::config_from_build_dirs;
use mlir_sys::resolver::find_llvm_source_from_build;
use mlir_sys::resolver::find_mlir_config;
use mlir_sys::resolver::parse_version_major;
use mlir_sys::resolver::try_llvm_config;

fn snapshot(present: &[&str], files: &[(&str, &str)]) -> FsSnapshot {
    FsSnapshot {
        present: present.iter().map(|p| p.to_string()).collect(),
        files: files
            .iter()
            .map(|(p, c)| FsFile { path: p.to_string(), content: c.to_string() })
            .collect(),
    }
}

fn env_with_prefix(prefix: &str) -> EnvConfig {
    EnvConfig {
        prefix: Some(prefix.to_string()),
        mlir_build_dir: None,
        llvm_build_dir: None,
        mlir_src_dir: None,
        llvm_src_dir: None,
    }
}

fn empty_env() -> EnvConfig {
    EnvConfig {
        prefix: None,
        mlir_build_dir: None,
        llvm_build_dir: None,
        mlir_src_dir: None,
        llvm_src_dir: None,
    }
}

#[test]
fn test_installed_prefix_scenario() {
    // An installed tree: bin, lib and include present, no build-tree markers.
    let fs = snapshot(
        &["/opt/llvm/bin", "/opt/llvm/lib", "/opt/llvm/include"],
        &[],
    );
    let env = env_with_prefix("/opt/llvm");
    let absent = ToolProbe::absent();
    let config = find_mlir_config(&env, &fs, &absent, &ToolProbe::absent()).unwrap();
    assert_eq!(config.lib_dir, "/opt/llvm/lib");
    assert_eq!(config.include_dirs, vec!["/opt/llvm/include".to_string()]);
}

#[test]
fn test_build_tree_scenario() {
    // A build tree: generated headers, the tree's own headers, a metadata
    // file recording the source checkout, and the sibling secondary source
    // tree. The four header directories come out in priority order.
    let fs = snapshot(
        &[
            "/work/llvm-project/build/tools/mlir/include",
            "/work/llvm-project/build/include",
            "/work/llvm-project/llvm",
            "/work/llvm-project/llvm/include",
            "/work/llvm-project/mlir/include",
        ],
        &[(
            "/work/llvm-project/build/CMakeCache.txt",
            "CMAKE_BUILD_TYPE:STRING=Release\nLLVM_SOURCE_DIR:STATIC=/work/llvm-project/llvm\n",
        )],
    );
    let env = env_with_prefix("/work/llvm-project/build");
    let config = find_mlir_config(&env, &fs, &ToolProbe::absent(), &ToolProbe::absent()).unwrap();
    assert_eq!(config.lib_dir, "/work/llvm-project/build/lib");
    assert_eq!(
        config.include_dirs,
        vec![
            "/work/llvm-project/build/tools/mlir/include".to_string(),
            "/work/llvm-project/build/include".to_string(),
            "/work/llvm-project/llvm/include".to_string(),
            "/work/llvm-project/mlir/include".to_string(),
        ]
    );
}

#[test]
fn test_prefix_wins_over_triple() {
    // Precedence: with the prefix variable set, the explicit triple is never
    // consulted, however complete it is.
    let fs = snapshot(&["/opt/llvm/include"], &[]);
    let env = EnvConfig {
        prefix: Some("/opt/llvm".to_string()),
        mlir_build_dir: Some("/elsewhere/build".to_string()),
        llvm_build_dir: None,
        mlir_src_dir: Some("/elsewhere/mlir".to_string()),
        llvm_src_dir: Some("/elsewhere/llvm".to_string()),
    };
    let config = find_mlir_config(&env, &fs, &ToolProbe::absent(), &ToolProbe::absent()).unwrap();
    assert_eq!(config.lib_dir, "/opt/llvm/lib");
    assert!(config.include_dirs.iter().all(|d| d.starts_with("/opt/llvm")));
}

#[test]
fn test_tool_probe_wins_over_triple() {
    // Precedence: without the prefix variable, a usable tool probe answers
    // before the explicit triple.
    let fs = snapshot(&[], &[]);
    let env = EnvConfig {
        prefix: None,
        mlir_build_dir: Some("/elsewhere/build".to_string()),
        llvm_build_dir: None,
        mlir_src_dir: Some("/elsewhere/mlir".to_string()),
        llvm_src_dir: Some("/elsewhere/llvm".to_string()),
    };
    let probe = ToolProbe {
        version_output: Some("21.0.0\n".to_string()),
        libdir_output: Some("/usr/lib/llvm/lib\n".to_string()),
        includedir_output: Some("/usr/lib/llvm/include\n".to_string()),
    };
    let config = find_mlir_config(&env, &fs, &ToolProbe::absent(), &probe).unwrap();
    assert_eq!(config.lib_dir, "/usr/lib/llvm/lib");
    assert_eq!(config.include_dirs, vec!["/usr/lib/llvm/include".to_string()]);
}

#[test]
fn test_triple_used_when_earlier_strategies_fail() {
    let fs = snapshot(&[], &[]);
    let env = EnvConfig {
        prefix: None,
        mlir_build_dir: None,
        llvm_build_dir: Some("/w/build".to_string()),
        mlir_src_dir: Some("/w/mlir".to_string()),
        llvm_src_dir: Some("/w/llvm".to_string()),
    };
    let config = find_mlir_config(&env, &fs, &ToolProbe::absent(), &ToolProbe::absent()).unwrap();
    assert_eq!(config.lib_dir, "/w/build/lib");
    assert_eq!(
        config.include_dirs,
        vec![
            "/w/build/tools/mlir/include".to_string(),
            "/w/build/include".to_string(),
            "/w/mlir/include".to_string(),
            "/w/llvm/include".to_string(),
        ]
    );
}

#[test]
fn test_resolution_failure_is_explicit() {
    let fs = snapshot(&[], &[]);
    let err = find_mlir_config(&empty_env(), &fs, &ToolProbe::absent(), &ToolProbe::absent())
        .unwrap_err();
    assert_eq!(err, ResolveError::NoInstallationFound);
    let message = err.message();
    assert!(message.contains("MLIR_SYS_210_PREFIX"));
    assert!(message.contains("MLIR_BUILD_DIR or LLVM_BUILD_DIR"));
    assert!(message.contains("llvm-config is in your PATH"));
}

#[test]
fn test_incomplete_triple_fails() {
    let fs = snapshot(&[], &[]);
    let env = EnvConfig {
        prefix: None,
        mlir_build_dir: Some("/w/build".to_string()),
        llvm_build_dir: None,
        mlir_src_dir: None,
        llvm_src_dir: Some("/w/llvm".to_string()),
    };
    assert!(find_mlir_config(&env, &fs, &ToolProbe::absent(), &ToolProbe::absent()).is_err());
}

#[test]
fn test_version_mismatch_is_lenient() {
    // A probe reporting an adjacent major version still resolves; the
    // mismatch is only surfaced for a warning.
    let fs = snapshot(&[], &[]);
    let probe = ToolProbe {
        version_output: Some("20.1.7\n".to_string()),
        libdir_output: Some("/usr/lib/llvm20/lib\n".to_string()),
        includedir_output: Some("/usr/lib/llvm20/include\n".to_string()),
    };
    let (config, major) = try_llvm_config(&probe, &fs);
    assert_eq!(major, Some(20));
    let config = config.unwrap();
    assert_eq!(config.lib_dir, "/usr/lib/llvm20/lib");
}

#[test]
fn test_unparsable_version_fails_probe() {
    let fs = snapshot(&[], &[]);
    let probe = ToolProbe {
        version_output: Some("not a version".to_string()),
        libdir_output: Some("/usr/lib\n".to_string()),
        includedir_output: Some("/usr/include\n".to_string()),
    };
    let (config, major) = try_llvm_config(&probe, &fs);
    assert!(config.is_none());
    assert_eq!(major, None);
}

#[test]
fn test_probe_classifies_build_tree() {
    // The parent of the reported library directory is inspected as a build
    // tree; generated headers rank before the tree's own headers, which rank
    // before the tool-reported header directory.
    let fs = snapshot(
        &["/b/tools/mlir/include", "/b/include"],
        &[],
    );
    let probe = ToolProbe {
        version_output: Some("21.0.0\n".to_string()),
        libdir_output: Some("/b/lib\n".to_string()),
        includedir_output: Some("/b/include\n".to_string()),
    };
    let (config, _) = try_llvm_config(&probe, &fs);
    let config = config.unwrap();
    assert_eq!(config.lib_dir, "/b/lib");
    assert_eq!(
        config.include_dirs,
        vec![
            "/b/tools/mlir/include".to_string(),
            "/b/include".to_string(),
        ]
    );
}

#[test]
fn test_parse_version_major_values() {
    assert_eq!(parse_version_major("21.0.0"), Some(21));
    assert_eq!(parse_version_major("21"), Some(21));
    assert_eq!(parse_version_major("19.1.7git"), Some(19));
    assert_eq!(parse_version_major(""), None);
    assert_eq!(parse_version_major(".5"), None);
    assert_eq!(parse_version_major("x.5"), None);
    assert_eq!(parse_version_major("99999999999999999999999.1"), None);
}

#[test]
fn test_metadata_overrides_sibling_convention() {
    // Both a recorded source directory and a plausible sibling exist: the
    // metadata recording wins.
    let fs = snapshot(
        &["/src/checkout", "/parent/llvm/include"],
        &[(
            "/parent/build/CMakeCache.txt",
            "LLVM_SOURCE_DIR:STATIC=/src/checkout\n",
        )],
    );
    let source = find_llvm_source_from_build(&"/parent/build".to_string(), &fs);
    assert_eq!(source, Some("/src/checkout".to_string()));
}

#[test]
fn test_sibling_convention_fallback() {
    // No usable metadata: the build directory's sibling named after the
    // primary project is accepted when it has headers.
    let fs = snapshot(&["/parent/llvm/include"], &[]);
    let source = find_llvm_source_from_build(&"/parent/build".to_string(), &fs);
    assert_eq!(source, Some("/parent/llvm".to_string()));
}

#[test]
fn test_recorded_path_must_exist() {
    // A recorded source directory that does not exist is passed over.
    let fs = snapshot(
        &[],
        &[(
            "/parent/build/CMakeCache.txt",
            "LLVM_SOURCE_DIR:STATIC=/gone\n",
        )],
    );
    let source = find_llvm_source_from_build(&"/parent/build".to_string(), &fs);
    assert_eq!(source, None);
}

#[test]
fn test_cache_scan_details() {
    let fs = snapshot(&["/a", "/b"], &[]);
    // First matching line with an existing path wins; values are trimmed and
    // cut at a second separator; carriage returns are stripped.
    let content = "JUNK=1\r\nLLVM_SOURCE_DIR:STATIC=/gone\r\nCMAKE_HOME_DIRECTORY:INTERNAL= /a \r\nLLVM_SOURCE_DIR:STATIC=/b\r\n";
    assert_eq!(cache_recorded_source_dir(content, &fs), Some("/a".to_string()));
    let with_second_eq = "LLVM_SOURCE_DIR:STATIC=/b=c\n";
    assert_eq!(cache_recorded_source_dir(with_second_eq, &fs), Some("/b".to_string()));
    assert_eq!(cache_recorded_source_dir("", &fs), None);
    assert_eq!(cache_recorded_source_dir("NOTHING_HERE:STATIC=/a\n", &fs), None);
}

#[test]
fn test_build_dirs_are_deduplicated() {
    // The explicit triple suppresses duplicate header directories while
    // keeping first-seen order.
    let config = config_from_build_dirs(
        &"/w/b".to_string(),
        &"/w/b".to_string(),
        &"/w/llvm".to_string(),
    );
    assert_eq!(
        config.include_dirs,
        vec![
            "/w/b/tools/mlir/include".to_string(),
            "/w/b/include".to_string(),
            "/w/llvm/include".to_string(),
        ]
    );
}

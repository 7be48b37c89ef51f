use openwork_core::misc::{
    is_mac_dmg_or_translocated, keep_probe_output, opencode_cache_candidates, parse_reset_mode,
    pick_version_output, resolve_opencode_config_path, updater_environment_from, ResetMode,
};
use openwork_core::scheduler::{
    find_job_by_name, opencode_jobs_dir, require_scheduler_support, scheduler_supported, slugify,
    ScheduledJob,
};
use openwork_core::skills::{
    collect_global_skill_roots, collect_project_skill_roots, collect_skill_roots, dedup_roots,
    extract_description, project_skill_roots, validate_skill_name, DirProbe,
};
use openwork_core::templates::{
    default_template_created_at, legacy_template_paths, merge_plugins, normalize_template,
    required_plugins_for_preset, sanitize_template_id, serialize_template_frontmatter,
    template_file_path, templates_dir_for, WorkspaceTemplate,
};
use openwork_core::text::truncate_output;
use openwork_core::watch::{normalize_path, reason_for_path, should_emit};

#[test]
fn truncate_keeps_the_tail() {
    assert_eq!(truncate_output("abcdef", 4), "cdef");
    assert_eq!(truncate_output("abc", 4), "abc");
    assert_eq!(truncate_output("", 4), "");
}

#[test]
fn frontmatter_serialization_is_exact() {
    let template = WorkspaceTemplate {
        id: "tmpl_x".to_string(),
        title: "A \"quoted\" title".to_string(),
        description: "line\nbreak".to_string(),
        prompt: "Do the thing.  \n".to_string(),
        created_at: 42,
    };
    let text = serialize_template_frontmatter(&template).unwrap();
    assert_eq!(
        text,
        "---\nid: \"tmpl_x\"\ntitle: \"A \\\"quoted\\\" title\"\ndescription: \"line\\nbreak\"\ncreatedAt: 42\n---\n\nDo the thing.\n"
    );
}

#[test]
fn template_ids_are_sanitized() {
    assert_eq!(sanitize_template_id("  my-id_1  ").as_deref(), Some("my-id_1"));
    assert_eq!(sanitize_template_id("a b/c").as_deref(), Some("abc"));
    assert!(sanitize_template_id("   ").is_none());
    assert!(sanitize_template_id("!!!").is_none());
}

#[test]
fn template_normalization_requires_an_id() {
    let bad = WorkspaceTemplate {
        id: " / ".to_string(),
        title: String::new(),
        description: String::new(),
        prompt: String::new(),
        created_at: 7,
    };
    assert_eq!(normalize_template(bad).unwrap_err(), "template.id is required");
    let good = WorkspaceTemplate {
        id: " ok ".to_string(),
        title: "t".to_string(),
        description: "d".to_string(),
        prompt: "p".to_string(),
        created_at: 7,
    };
    let normalized = normalize_template(good).unwrap();
    assert_eq!(normalized.id, "ok");
    assert_eq!(normalized.created_at, 7);
}

#[test]
fn template_paths_are_laid_out() {
    assert_eq!(templates_dir_for("/ws"), "/ws/.openwork/templates");
    assert_eq!(template_file_path("/t", "x"), "/t/x/template.yml");
    assert_eq!(
        legacy_template_paths("/t", "x"),
        vec!["/t/x.json", "/t/x.yml", "/t/x.yaml"]
    );
}

#[test]
fn created_at_keeps_explicit_stamps() {
    assert_eq!(default_template_created_at(5), 5);
    assert!(default_template_created_at(0) >= 1);
}

#[test]
fn plugins_merge_without_duplicates() {
    let merged = merge_plugins(
        vec!["a".to_string(), "b".to_string()],
        &vec!["b".to_string(), "c".to_string(), "c".to_string()],
    );
    assert_eq!(merged, vec!["a", "b", "c"]);
    assert_eq!(required_plugins_for_preset("starter"), vec!["opencode-scheduler"]);
    assert_eq!(required_plugins_for_preset("automation"), vec!["opencode-scheduler"]);
    assert!(required_plugins_for_preset("remote").is_empty());
}

#[test]
fn skill_names_must_be_kebab() {
    assert_eq!(validate_skill_name(" my-skill1 ").unwrap(), "my-skill1");
    assert_eq!(validate_skill_name("  ").unwrap_err(), "skill name is required");
    assert_eq!(validate_skill_name("My-Skill").unwrap_err(), "skill name must be kebab-case");
    assert_eq!(validate_skill_name("-lead").unwrap_err(), "skill name must be kebab-case");
    assert_eq!(validate_skill_name("trail-").unwrap_err(), "skill name must be kebab-case");
    assert_eq!(validate_skill_name("a--b").unwrap_err(), "skill name must be kebab-case");
}

#[test]
fn descriptions_skip_frontmatter_and_headers() {
    let raw = "---\nname: x\ndescription: hidden\n---\n\n# Title\n\nThe `real` description.\nmore";
    assert_eq!(extract_description(raw).as_deref(), Some("The real description."));
    assert!(extract_description("# only a header\n").is_none());
    assert!(extract_description("```\n```\n").is_none());
}

#[test]
fn long_descriptions_are_capped() {
    let long = "x".repeat(200);
    let description = extract_description(&long).unwrap();
    assert_eq!(description.len(), 183);
    assert!(description.ends_with("..."));
}

#[test]
fn skill_roots_prefer_current_layout() {
    assert_eq!(
        project_skill_roots("/p", true, true, true),
        vec!["/p/.opencode/skills", "/p/.companion/skills"]
    );
    assert_eq!(project_skill_roots("/p", false, true, false), vec!["/p/.opencode/skill"]);
    assert!(project_skill_roots("/p", false, false, false).is_empty());
}

#[test]
fn project_walk_stops_at_repository_root() {
    let probes = vec![
        DirProbe {
            dir: "/r/a/b".to_string(),
            has_skills: true,
            has_legacy: false,
            has_companion: false,
            has_git: false,
        },
        DirProbe {
            dir: "/r/a".to_string(),
            has_skills: false,
            has_legacy: false,
            has_companion: true,
            has_git: true,
        },
        DirProbe {
            dir: "/r".to_string(),
            has_skills: true,
            has_legacy: false,
            has_companion: false,
            has_git: false,
        },
    ];
    assert_eq!(
        collect_project_skill_roots(&probes),
        vec!["/r/a/b/.opencode/skills", "/r/a/.companion/skills"]
    );
}

#[test]
fn global_and_project_roots_are_deduplicated() {
    let config_dirs = vec!["/home/u/.config".to_string()];
    let present = vec![true];
    let global =
        collect_global_skill_roots(&config_dirs, &present, Some("/home/u".to_string()), true);
    assert_eq!(
        global,
        vec!["/home/u/.config/opencode/skills", "/home/u/.companion/skills"]
    );
    let probes = vec![DirProbe {
        dir: "/home/u".to_string(),
        has_skills: false,
        has_legacy: false,
        has_companion: true,
        has_git: false,
    }];
    let all = collect_skill_roots(&probes, global);
    assert_eq!(
        all,
        vec![
            "/home/u/.companion/skills",
            "/home/u/.config/opencode/skills",
        ]
    );
    let deduped = dedup_roots(vec!["/a".to_string(), "/b".to_string(), "/a".to_string()]);
    assert_eq!(deduped, vec!["/a", "/b"]);
}

#[test]
fn scheduler_gate_depends_on_platform() {
    assert!(scheduler_supported("macos"));
    assert!(scheduler_supported("linux"));
    assert!(!scheduler_supported("windows"));
    assert!(require_scheduler_support("linux").is_ok());
    assert_eq!(
        require_scheduler_support("windows").unwrap_err(),
        "Scheduler is supported only on macOS and Linux."
    );
    assert_eq!(
        opencode_jobs_dir(Some("/home/u".to_string())).unwrap(),
        "/home/u/.config/opencode/jobs"
    );
    assert_eq!(opencode_jobs_dir(None).unwrap_err(), "Failed to resolve home directory");
}

#[test]
fn slugs_collapse_and_trim() {
    assert_eq!(slugify("Hello, World!"), "hello-world");
    assert_eq!(slugify("  --Daily Report--  "), "daily-report");
    assert_eq!(slugify("***"), "");
    assert_eq!(slugify("A"), "a");
}

#[test]
fn jobs_are_found_by_slug_suffix_or_name() {
    let jobs = vec![
        ScheduledJob {
            name: "Morning Report".to_string(),
            slug: "job-morning-report".to_string(),
            schedule: None,
            command: None,
        },
        ScheduledJob {
            name: "Backup".to_string(),
            slug: "backup".to_string(),
            schedule: None,
            command: None,
        },
    ];
    assert_eq!(find_job_by_name(&jobs, "backup").unwrap().name, "Backup");
    assert_eq!(find_job_by_name(&jobs, "Morning Report").unwrap().slug, "job-morning-report");
    assert_eq!(find_job_by_name(&jobs, "morning").unwrap().slug, "job-morning-report");
    assert!(find_job_by_name(&jobs, "nothing-here").is_none());
    assert!(find_job_by_name(&jobs, "   ").is_none());
}

#[test]
fn watch_reasons_classify_paths() {
    assert_eq!(reason_for_path("/ws/.opencode/skills/x/SKILL.md"), Some("skills"));
    assert_eq!(reason_for_path("C:\\ws\\.OPENCODE\\skills"), Some("skills"));
    assert_eq!(reason_for_path("/ws/.opencode/opencode.json"), Some("config"));
    assert_eq!(reason_for_path("/ws/opencode.jsonc"), Some("config"));
    assert_eq!(reason_for_path("/ws/readme.md"), None);
    assert_eq!(normalize_path("a\\b\\c"), "a/b/c");
}

#[test]
fn reload_events_are_debounced() {
    let (emit, guard) = should_emit(None, 1000);
    assert!(emit);
    assert_eq!(guard, Some(1000));
    let (emit, guard) = should_emit(guard, 1500);
    assert!(!emit);
    assert_eq!(guard, Some(1000));
    let (emit, guard) = should_emit(guard, 1750);
    assert!(emit);
    assert_eq!(guard, Some(1750));
}

#[test]
fn version_probe_prefers_stdout() {
    assert_eq!(pick_version_output(" 1.2.3 \n", "noise").as_deref(), Some("1.2.3"));
    assert_eq!(pick_version_output("  ", " err ").as_deref(), Some("err"));
    assert!(pick_version_output(" ", "").is_none());
    assert_eq!(keep_probe_output("  help text  ").as_deref(), Some("help text"));
    assert!(keep_probe_output("\n").is_none());
}

#[test]
fn reset_modes_are_validated() {
    assert!(matches!(parse_reset_mode(" onboarding "), Ok(ResetMode::Onboarding)));
    assert!(matches!(parse_reset_mode("all"), Ok(ResetMode::All)));
    assert_eq!(parse_reset_mode("everything").unwrap_err(), "mode must be 'onboarding' or 'all'");
}

#[test]
fn updater_refuses_disk_images() {
    assert!(is_mac_dmg_or_translocated("/Volumes/OpenWork/app"));
    assert!(is_mac_dmg_or_translocated("/private/AppTranslocation/xyz"));
    assert!(!is_mac_dmg_or_translocated("/Applications/OpenWork.app"));
    let env = updater_environment_from(Some("/Volumes/X/app".to_string()), None);
    assert!(!env.supported);
    assert!(env.reason.unwrap().contains("mounted disk image"));
    let env = updater_environment_from(Some("/Applications/app".to_string()), None);
    assert!(env.supported);
    assert!(env.reason.is_none());
}

#[test]
fn config_paths_follow_scope() {
    assert_eq!(
        resolve_opencode_config_path("project", "/ws", None, None).unwrap(),
        "/ws/opencode.json"
    );
    assert_eq!(
        resolve_opencode_config_path("project", "  ", None, None).unwrap_err(),
        "projectDir is required"
    );
    assert_eq!(
        resolve_opencode_config_path("global", "", Some("/xdg".to_string()), None).unwrap(),
        "/xdg/opencode/opencode.json"
    );
    assert_eq!(
        resolve_opencode_config_path("global", "", None, Some("/home/u".to_string())).unwrap(),
        "/home/u/.config/opencode/opencode.json"
    );
    assert_eq!(
        resolve_opencode_config_path("global", "", None, None).unwrap_err(),
        "Unable to resolve config directory"
    );
    assert_eq!(
        resolve_opencode_config_path("other", "", None, None).unwrap_err(),
        "scope must be 'project' or 'global'"
    );
}

#[test]
fn cache_candidates_are_deduplicated() {
    let cands = opencode_cache_candidates(
        Some(" /home/u/.cache ".to_string()),
        Some("/home/u".to_string()),
        true,
    );
    assert_eq!(
        cands,
        vec![
            "/home/u/.cache/opencode",
            "/home/u/Library/Caches/opencode",
        ]
    );
    let cands = opencode_cache_candidates(None, Some("/home/u".to_string()), false);
    assert_eq!(cands, vec!["/home/u/.cache/opencode"]);
}

use openwork_core::misc::{mcp_auth_args, opkg_install_plan, opkg_not_found_result};
use openwork_core::templates::{default_templates, merged_plugin_list};

#[test]
fn default_templates_are_seeded_with_the_clock() {
    let templates = default_templates(7);
    let ids: Vec<&str> = templates.iter().map(|t| t.id.as_str()).collect();
    assert_eq!(
        ids,
        vec!["tmpl_interact_with_files", "tmpl_learn_skills", "tmpl_learn_plugins"]
    );
    assert!(templates.iter().all(|t| t.created_at == 7));
}

#[test]
fn plugin_lists_are_read_from_config() {
    let config = openwork_core::jsonval::parse_json(
        "{\"plugin\": [\"a\", 5, \"opencode-scheduler\"]}",
    )
    .unwrap();
    assert_eq!(
        merged_plugin_list(&config, "starter"),
        vec!["a", "opencode-scheduler"]
    );
    let single = openwork_core::jsonval::parse_json("{\"plugin\": \"solo\"}").unwrap();
    assert_eq!(merged_plugin_list(&single, "automation"), vec!["solo", "opencode-scheduler"]);
    let none = openwork_core::jsonval::parse_json("{}").unwrap();
    assert_eq!(merged_plugin_list(&none, "remote"), Vec::<String>::new());
}

#[test]
fn package_install_plan_is_ordered() {
    assert_eq!(
        opkg_install_plan(" ", "p").unwrap_err(),
        "projectDir is required"
    );
    assert_eq!(opkg_install_plan("/p", " ").unwrap_err(), "package is required");
    let plan = opkg_install_plan("/p", " pkg ").unwrap();
    assert_eq!(
        plan,
        vec![
            vec!["opkg", "install", "pkg"],
            vec!["openpackage", "install", "pkg"],
            vec!["pnpm", "dlx", "opkg", "install", "pkg"],
            vec!["npx", "opkg", "install", "pkg"],
        ]
    );
    let fallback = opkg_not_found_result();
    assert!(!fallback.ok);
    assert_eq!(fallback.status, -1);
    assert!(fallback.stderr.contains("OpenPackage CLI not found"));
}

#[test]
fn mcp_auth_arguments_are_validated() {
    assert_eq!(mcp_auth_args("", "s").unwrap_err(), "project_dir is required");
    assert_eq!(mcp_auth_args("/p", " ").unwrap_err(), "server_name is required");
    assert_eq!(mcp_auth_args("/p", " srv ").unwrap(), vec!["mcp", "auth", "srv"]);
}

use openwork_core::scheduler::{job_file_path, launch_agent_paths, systemd_unit_paths};
use openwork_core::skills::{
    skill_exists_result, skill_installed_result, skill_not_found_result, skill_removed_result,
};

#[test]
fn scheduler_install_paths_are_exact() {
    assert_eq!(job_file_path("/jobs", "daily"), "/jobs/daily.json");
    let (label, plist) = launch_agent_paths("/home/u", "daily");
    assert_eq!(label, "com.opencode.job.daily");
    assert_eq!(plist, "/home/u/Library/LaunchAgents/com.opencode.job.daily.plist");
    let (service, timer) = systemd_unit_paths("/home/u", "daily");
    assert_eq!(service, "/home/u/.config/systemd/user/opencode-job-daily.service");
    assert_eq!(timer, "/home/u/.config/systemd/user/opencode-job-daily.timer");
}

#[test]
fn skill_command_results_spell_out_the_outcome() {
    let installed = skill_installed_result("/p/.opencode/skills/x");
    assert!(installed.ok);
    assert_eq!(installed.stdout, "Installed skill to /p/.opencode/skills/x");
    let exists = skill_exists_result("/p/.opencode/skills/x");
    assert!(!exists.ok);
    assert_eq!(exists.stderr, "Skill already exists at /p/.opencode/skills/x");
    let removed = skill_removed_result("x");
    assert_eq!(removed.stdout, "Removed skill x");
    let missing = skill_not_found_result();
    assert_eq!(missing.status, 1);
    assert!(missing.stderr.contains("Skill not found"));
}

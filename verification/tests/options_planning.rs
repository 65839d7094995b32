//! The planning rules that turn a request's option records into engine
//! settings: absent toggles mean off, CSS-modules and dependency-analysis
//! options map case by case, and the style-attribute path collects warnings
//! exactly when error recovery is asked for.

use css_bridge::options::{
    plan_attr, plan_bundle, plan_css_modules, plan_dependencies, plan_transform,
    AnalyzeDependenciesOption, AttrConfig, CssModulesOption, CssModulesPlan, CssModulesSettings,
    DependencySettings, Drafts, TransformConfig,
};

fn empty_transform_config() -> TransformConfig {
    TransformConfig {
        filename: None,
        minify: None,
        source_map: None,
        input_source_map: None,
        drafts: None,
        css_modules: None,
        analyze_dependencies: None,
        pseudo_classes: None,
        error_recovery: None,
    }
}

#[test]
fn transform_defaults_are_all_off() {
    let plan = plan_transform(&empty_transform_config());
    assert_eq!(plan.filename, "");
    assert!(!plan.nesting);
    assert!(!plan.custom_media);
    assert!(!plan.error_recovery);
    assert!(!plan.minify);
    assert!(!plan.emit_source_map);
    assert!(matches!(plan.css_modules, CssModulesPlan::Disabled));
    assert!(plan.dependencies.is_none());
    assert!(plan.collect_warnings);
}

#[test]
fn transform_keeps_given_toggles_and_filename() {
    let mut config = empty_transform_config();
    config.filename = Some(String::from("in.css"));
    config.minify = Some(true);
    config.source_map = Some(true);
    config.error_recovery = Some(true);
    config.drafts = Some(Drafts { nesting: true, custom_media: false });
    let plan = plan_transform(&config);
    assert_eq!(plan.filename, "in.css");
    assert!(plan.minify);
    assert!(plan.emit_source_map);
    assert!(plan.error_recovery);
    assert!(plan.nesting);
    assert!(!plan.custom_media);
}

#[test]
fn css_modules_toggle_maps_to_default_or_disabled() {
    assert!(matches!(plan_css_modules(&None), CssModulesPlan::Disabled));
    assert!(matches!(
        plan_css_modules(&Some(CssModulesOption::Toggle(false))),
        CssModulesPlan::Disabled
    ));
    assert!(matches!(
        plan_css_modules(&Some(CssModulesOption::Toggle(true))),
        CssModulesPlan::DefaultSettings
    ));
}

#[test]
fn css_modules_settings_keep_pattern_and_default_dashed_idents_off() {
    let opt = Some(CssModulesOption::Settings(CssModulesSettings {
        pattern: Some(String::from("px-[local]")),
        dashed_idents: None,
    }));
    match plan_css_modules(&opt) {
        CssModulesPlan::Custom { pattern, dashed_idents } => {
            assert_eq!(pattern.as_deref(), Some("px-[local]"));
            assert!(!dashed_idents);
        }
        other_plan => panic!("expected custom settings, got {:?}", plan_name(&other_plan)),
    }

    let opt = Some(CssModulesOption::Settings(CssModulesSettings {
        pattern: None,
        dashed_idents: Some(true),
    }));
    match plan_css_modules(&opt) {
        CssModulesPlan::Custom { pattern, dashed_idents } => {
            assert!(pattern.is_none());
            assert!(dashed_idents);
        }
        other_plan => panic!("expected custom settings, got {:?}", plan_name(&other_plan)),
    }
}

fn plan_name(p: &CssModulesPlan) -> &'static str {
    match p {
        CssModulesPlan::Disabled => "disabled",
        CssModulesPlan::DefaultSettings => "default settings",
        CssModulesPlan::Custom { .. } => "custom",
    }
}

#[test]
fn dependency_analysis_maps_case_by_case() {
    assert!(plan_dependencies(&None).is_none());
    assert!(plan_dependencies(&Some(AnalyzeDependenciesOption::Toggle(false))).is_none());

    let on = plan_dependencies(&Some(AnalyzeDependenciesOption::Toggle(true))).unwrap();
    assert!(on.remove_imports);

    let preserving = plan_dependencies(&Some(AnalyzeDependenciesOption::Settings(
        DependencySettings { preserve_imports: true },
    )))
    .unwrap();
    assert!(!preserving.remove_imports);

    let removing = plan_dependencies(&Some(AnalyzeDependenciesOption::Settings(
        DependencySettings { preserve_imports: false },
    )))
    .unwrap();
    assert!(removing.remove_imports);
}

#[test]
fn bundle_plan_keeps_entry_filename() {
    let config = css_bridge::options::BundleConfig {
        filename: String::from("www/entry.css"),
        minify: Some(true),
        source_map: None,
        drafts: None,
        css_modules: Some(CssModulesOption::Toggle(true)),
        analyze_dependencies: None,
        pseudo_classes: None,
        error_recovery: None,
    };
    let plan = plan_bundle(&config);
    assert_eq!(plan.filename, "www/entry.css");
    assert!(plan.minify);
    assert!(matches!(plan.css_modules, CssModulesPlan::DefaultSettings));
    assert!(plan.collect_warnings);
}

#[test]
fn attr_plan_collects_warnings_only_under_error_recovery() {
    let quiet = plan_attr(&AttrConfig {
        filename: None,
        minify: true,
        analyze_dependencies: false,
        error_recovery: false,
    });
    assert!(!quiet.collect_warnings);
    assert!(quiet.minify);
    assert!(quiet.dependencies.is_none());
    assert!(!quiet.emit_source_map);

    let recovering = plan_attr(&AttrConfig {
        filename: Some(String::from("inline-style")),
        minify: false,
        analyze_dependencies: true,
        error_recovery: true,
    });
    assert!(recovering.collect_warnings);
    assert_eq!(recovering.filename, "inline-style");
    let deps = recovering.dependencies.unwrap();
    assert!(!deps.remove_imports);
}

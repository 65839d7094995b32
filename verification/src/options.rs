//! The option records a request hands in, and the planning rules that turn
//! them into the settings the transformation engine runs with. The records
//! hold plain values; decoding host-native values into them, and handing the
//! planned settings to the engine, stay with the caller.

use vstd::prelude::*;

verus! {

/// Draft syntax toggles.
pub struct Drafts {
    pub nesting: bool,
    pub custom_media: bool,
}

/// CSS-modules settings given explicitly.
pub struct CssModulesSettings {
    pub pattern: Option<String>,
    pub dashed_idents: Option<bool>,
}

/// How a request asks for CSS modules: a plain toggle, or settings.
pub enum CssModulesOption {
    Toggle(bool),
    Settings(CssModulesSettings),
}

/// Dependency-analysis settings given explicitly.
pub struct DependencySettings {
    pub preserve_imports: bool,
}

/// How a request asks for dependency analysis: a plain toggle, or settings.
pub enum AnalyzeDependenciesOption {
    Toggle(bool),
    Settings(DependencySettings),
}

/// Replacement names for pseudo-classes, passed through to the engine.
pub struct PseudoClassSubstitutions {
    pub hover: Option<String>,
    pub active: Option<String>,
    pub focus: Option<String>,
    pub focus_visible: Option<String>,
    pub focus_within: Option<String>,
}

/// The options of a whole-stylesheet transformation request.
pub struct TransformConfig {
    pub filename: Option<String>,
    pub minify: Option<bool>,
    pub source_map: Option<bool>,
    pub input_source_map: Option<String>,
    pub drafts: Option<Drafts>,
    pub css_modules: Option<CssModulesOption>,
    pub analyze_dependencies: Option<AnalyzeDependenciesOption>,
    pub pseudo_classes: Option<PseudoClassSubstitutions>,
    pub error_recovery: Option<bool>,
}

/// The options of a bundling request; unlike a transformation, it always
/// names its entry file.
pub struct BundleConfig {
    pub filename: String,
    pub minify: Option<bool>,
    pub source_map: Option<bool>,
    pub drafts: Option<Drafts>,
    pub css_modules: Option<CssModulesOption>,
    pub analyze_dependencies: Option<AnalyzeDependenciesOption>,
    pub pseudo_classes: Option<PseudoClassSubstitutions>,
    pub error_recovery: Option<bool>,
}

/// The options of a style-attribute request; its toggles are plain booleans.
pub struct AttrConfig {
    pub filename: Option<String>,
    pub minify: bool,
    pub analyze_dependencies: bool,
    pub error_recovery: bool,
}

/// The engine-facing CSS-modules setting.
pub enum CssModulesPlan {
    /// CSS modules are off.
    Disabled,
    /// On, with the engine's default settings.
    DefaultSettings,
    /// On, with an explicit pattern (left for the engine to parse) and
    /// dashed-ident handling.
    Custom { pattern: Option<String>, dashed_idents: bool },
}

/// The engine-facing dependency-analysis setting.
pub struct DependencyPlan {
    pub remove_imports: bool,
}

/// Everything the planning rules decide for one engine run.
pub struct EnginePlan {
    pub filename: String,
    pub nesting: bool,
    pub custom_media: bool,
    pub error_recovery: bool,
    pub minify: bool,
    pub emit_source_map: bool,
    pub css_modules: CssModulesPlan,
    pub dependencies: Option<DependencyPlan>,
    pub collect_warnings: bool,
}

/// The given filename, or the empty name when none was given.
pub open spec fn filename_or_empty(f: Option<String>) -> Seq<char> {
    match f {
        Option::Some(name) => name@,
        Option::None => Seq::<char>::empty(),
    }
}

/// The CSS-modules rule: absent or toggled off disables them; toggled on
/// takes the engine's defaults; explicit settings keep their pattern and
/// treat an absent dashed-ident flag as off.
pub open spec fn css_modules_plan_matches(opt: Option<CssModulesOption>, p: CssModulesPlan) -> bool {
    match opt {
        Option::None => p is Disabled,
        Option::Some(CssModulesOption::Toggle(b)) => if b {
            p is DefaultSettings
        } else {
            p is Disabled
        },
        Option::Some(CssModulesOption::Settings(s)) => p matches CssModulesPlan::Custom {
            pattern,
            dashed_idents,
        } && pattern == s.pattern && dashed_idents == (s.dashed_idents matches Some(true)),
    }
}

/// The dependency-analysis rule: absent or toggled off analyses nothing;
/// toggled on removes imports; explicit settings remove imports exactly when
/// they are not preserved.
pub open spec fn dependency_plan_matches(
    opt: Option<AnalyzeDependenciesOption>,
    p: Option<DependencyPlan>,
) -> bool {
    match opt {
        Option::None => p is None,
        Option::Some(AnalyzeDependenciesOption::Toggle(b)) => if b {
            p == Some(DependencyPlan { remove_imports: true })
        } else {
            p is None
        },
        Option::Some(AnalyzeDependenciesOption::Settings(s)) => p == Some(
            DependencyPlan { remove_imports: !s.preserve_imports },
        ),
    }
}

/// Plans the CSS-modules setting.
pub fn plan_css_modules(opt: &Option<CssModulesOption>) -> (p: CssModulesPlan)
    ensures
        css_modules_plan_matches(*opt, p),
{
    match opt {
        None => CssModulesPlan::Disabled,
        Some(CssModulesOption::Toggle(true)) => CssModulesPlan::DefaultSettings,
        Some(CssModulesOption::Toggle(false)) => CssModulesPlan::Disabled,
        Some(CssModulesOption::Settings(s)) => CssModulesPlan::Custom {
            pattern: match &s.pattern {
                Some(pattern) => Some(pattern.clone()),
                None => None,
            },
            dashed_idents: match s.dashed_idents {
                Some(b) => b,
                None => false,
            },
        },
    }
}

/// Plans the dependency-analysis setting.
pub fn plan_dependencies(opt: &Option<AnalyzeDependenciesOption>) -> (p: Option<DependencyPlan>)
    ensures
        dependency_plan_matches(*opt, p),
{
    match opt {
        None => None,
        Some(AnalyzeDependenciesOption::Toggle(true)) => Some(
            DependencyPlan { remove_imports: true },
        ),
        Some(AnalyzeDependenciesOption::Toggle(false)) => None,
        Some(AnalyzeDependenciesOption::Settings(s)) => Some(
            DependencyPlan { remove_imports: !s.preserve_imports },
        ),
    }
}

/// The given filename, or an empty one.
fn filename_value(f: &Option<String>) -> (r: String)
    ensures
        r@ == filename_or_empty(*f),
{
    match f {
        Some(name) => name.clone(),
        None => String::new(),
    }
}

/// An absent boolean option means off.
fn flag_on(f: &Option<bool>) -> (b: bool)
    ensures
        b == (*f matches Some(true)),
{
    match f {
        Some(b) => *b,
        None => false,
    }
}

/// Whether a draft toggle is on.
fn draft_on(drafts: &Option<Drafts>, nesting: bool) -> (b: bool)
    ensures
        nesting ==> b == (*drafts matches Some(d) && d.nesting),
        !nesting ==> b == (*drafts matches Some(d) && d.custom_media),
{
    match drafts {
        Some(d) => if nesting {
            d.nesting
        } else {
            d.custom_media
        },
        None => false,
    }
}

/// Plans a whole-stylesheet transformation: every toggle defaults to off
/// when absent, warnings are always collected, and the source map is
/// emitted exactly when asked for.
pub fn plan_transform(config: &TransformConfig) -> (p: EnginePlan)
    ensures
        p.filename@ == filename_or_empty(config.filename),
        p.nesting == (config.drafts matches Some(d) && d.nesting),
        p.custom_media == (config.drafts matches Some(d) && d.custom_media),
        p.error_recovery == (config.error_recovery matches Some(true)),
        p.minify == (config.minify matches Some(true)),
        p.emit_source_map == (config.source_map matches Some(true)),
        css_modules_plan_matches(config.css_modules, p.css_modules),
        dependency_plan_matches(config.analyze_dependencies, p.dependencies),
        p.collect_warnings,
{
    EnginePlan {
        filename: filename_value(&config.filename),
        nesting: draft_on(&config.drafts, true),
        custom_media: draft_on(&config.drafts, false),
        error_recovery: flag_on(&config.error_recovery),
        minify: flag_on(&config.minify),
        emit_source_map: flag_on(&config.source_map),
        css_modules: plan_css_modules(&config.css_modules),
        dependencies: plan_dependencies(&config.analyze_dependencies),
        collect_warnings: true,
    }
}

/// Plans a bundling run; the entry filename is kept as given.
pub fn plan_bundle(config: &BundleConfig) -> (p: EnginePlan)
    ensures
        p.filename == config.filename,
        p.nesting == (config.drafts matches Some(d) && d.nesting),
        p.custom_media == (config.drafts matches Some(d) && d.custom_media),
        p.error_recovery == (config.error_recovery matches Some(true)),
        p.minify == (config.minify matches Some(true)),
        p.emit_source_map == (config.source_map matches Some(true)),
        css_modules_plan_matches(config.css_modules, p.css_modules),
        dependency_plan_matches(config.analyze_dependencies, p.dependencies),
        p.collect_warnings,
{
    EnginePlan {
        filename: config.filename.clone(),
        nesting: draft_on(&config.drafts, true),
        custom_media: draft_on(&config.drafts, false),
        error_recovery: flag_on(&config.error_recovery),
        minify: flag_on(&config.minify),
        emit_source_map: flag_on(&config.source_map),
        css_modules: plan_css_modules(&config.css_modules),
        dependencies: plan_dependencies(&config.analyze_dependencies),
        collect_warnings: true,
    }
}

/// Plans a style-attribute run: no source map, no CSS modules, no draft
/// syntax, import removal left off, and warnings collected exactly when
/// recovery from errors is asked for.
pub fn plan_attr(config: &AttrConfig) -> (p: EnginePlan)
    ensures
        p.filename@ == filename_or_empty(config.filename),
        !p.nesting,
        !p.custom_media,
        p.error_recovery == config.error_recovery,
        p.minify == config.minify,
        !p.emit_source_map,
        p.css_modules is Disabled,
        config.analyze_dependencies ==> p.dependencies == Some(
            DependencyPlan { remove_imports: false },
        ),
        !config.analyze_dependencies ==> p.dependencies is None,
        p.collect_warnings == config.error_recovery,
{
    EnginePlan {
        filename: filename_value(&config.filename),
        nesting: false,
        custom_media: false,
        error_recovery: config.error_recovery,
        minify: config.minify,
        emit_source_map: false,
        css_modules: CssModulesPlan::Disabled,
        dependencies: if config.analyze_dependencies {
            Some(DependencyPlan { remove_imports: false })
        } else {
            None
        },
        collect_warnings: config.error_recovery,
    }
}

} // verus!

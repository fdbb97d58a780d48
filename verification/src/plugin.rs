use vstd::prelude::*;
use vstd::string::StringExecFns;

verus! {

/// Configuration of a plugin that is loaded in the order of its `order` key.
#[derive(Debug)]
pub struct PluginOrderedConfig {
    pub enable: bool,
    pub system: bool,
    pub order: i64,
    pub reload: bool,
    pub name: String,
    pub path: String,
    /// Signature of the plugin's library file (its modification time), when it could be read.
    pub file_hash: Option<String>,
}

impl Clone for PluginOrderedConfig {
    /// A copy with equal fields.
    fn clone(&self) -> (r: Self)
        ensures
            r == *self,
    {
        PluginOrderedConfig {
            enable: self.enable,
            system: self.system,
            order: self.order,
            reload: self.reload,
            name: self.name.clone(),
            path: self.path.clone(),
            file_hash: match &self.file_hash {
                Some(h) => Some(h.clone()),
                None => None,
            },
        }
    }
}

impl PluginOrderedConfig {
    /// The plugin's name.
    pub fn name(&self) -> (r: &str)
        ensures
            r@ == self.name@,
    {
        self.name.as_str()
    }

    /// The path of the plugin's library.
    pub fn path(&self) -> (r: &str)
        ensures
            r@ == self.path@,
    {
        self.path.as_str()
    }
}

/// What every plugin configuration tells: the plugin's name and the path of its library.
pub trait PluginConfig {
    fn name(&self) -> (r: &str)
        ensures
            r@ == self.config_name();

    fn path(&self) -> (r: &str)
        ensures
            r@ == self.config_path();

    /// The plugin's name.
    spec fn config_name(&self) -> Seq<char>;

    /// The path of the plugin's library.
    spec fn config_path(&self) -> Seq<char>;
}

impl PluginConfig for PluginOrderedConfig {
    fn name(&self) -> (r: &str) {
        self.name.as_str()
    }

    fn path(&self) -> (r: &str) {
        self.path.as_str()
    }

    open spec fn config_name(&self) -> Seq<char> {
        self.name@
    }

    open spec fn config_path(&self) -> Seq<char> {
        self.path@
    }
}

impl PluginConfig for PluginTopologicalConfig {
    fn name(&self) -> (r: &str) {
        self.name.as_str()
    }

    fn path(&self) -> (r: &str) {
        self.path.as_str()
    }

    open spec fn config_name(&self) -> Seq<char> {
        self.name@
    }

    open spec fn config_path(&self) -> Seq<char> {
        self.path@
    }
}

/// Configuration of a plugin that is loaded after the plugins it depends on.
#[derive(Debug)]
pub struct PluginTopologicalConfig {
    pub name: String,
    pub path: String,
    pub required: bool,
    pub depend: Vec<String>,
}

impl PluginTopologicalConfig {
    /// A configuration with the given fields; the dependencies are copied in order.
    pub fn new(name: &str, path: &str, required: bool, depend: &[&str]) -> (r: Self)
        ensures
            r.name@ == name@,
            r.path@ == path@,
            r.required == required,
            r.depend@.len() == depend@.len(),
            forall|i: int| 0 <= i < depend@.len() ==> (#[trigger] r.depend@[i])@ == depend@[i]@,
    {
        let mut deps: Vec<String> = Vec::new();
        let mut i: usize = 0;
        while i < depend.len()
            invariant
                i <= depend@.len(),
                deps@.len() == i,
                forall|j: int| 0 <= j < i ==> (#[trigger] deps@[j])@ == depend@[j]@,
            decreases depend@.len() - i,
        {
            deps.push(depend[i].to_owned());
            i = i + 1;
        }
        PluginTopologicalConfig {
            name: name.to_owned(),
            path: path.to_owned(),
            required,
            depend: deps,
        }
    }

    /// The plugin's name.
    pub fn name(&self) -> (r: &str)
        ensures
            r@ == self.name@,
    {
        self.name.as_str()
    }

    /// The path of the plugin's library.
    pub fn path(&self) -> (r: &str)
        ensures
            r@ == self.path@,
    {
        self.path.as_str()
    }
}

impl Default for PluginTopologicalConfig {
    /// An unnamed, required plugin with no path and no dependencies.
    fn default() -> (r: Self)
        ensures
            r.name@ == Seq::<char>::empty(),
            r.path@ == Seq::<char>::empty(),
            r.required,
            r.depend@.len() == 0,
    {
        PluginTopologicalConfig {
            name: String::new(),
            path: String::new(),
            required: true,
            depend: Vec::new(),
        }
    }
}

/// Errors of plugin loading.
#[derive(Debug)]
pub enum PluginLoadError {
    LibraryLoadError { library_name: String, error: String },
    SymbolNotFound { library_name: String, symbols_name: String },
    CyrcleDependency { node: String },
    MissingDependencies { plugin_name: String, depend: Vec<String> },
    MissingConfig { plugin_name: String },
    SymbolLoadError { library_name: String, symbol_name: String, error: String },
    PluginInitFailed { library_name: String, symbol_name: String, error: String },
}

/// `format!("{:?}", s)` of a `String`: the text between double quotes, with special characters
/// escaped.
pub uninterp spec fn debug_string(s: Seq<char>) -> Seq<char>;

/// The `Debug` texts of the strings of `v`, separated by `", "`.
pub open spec fn debug_joined(v: Seq<Seq<char>>) -> Seq<char>
    decreases v.len(),
{
    if v.len() == 0 {
        Seq::empty()
    } else if v.len() == 1 {
        debug_string(v[0])
    } else {
        debug_joined(v.drop_last()) + ", "@ + debug_string(v.last())
    }
}

/// `format!("{:?}", v)` of a `Vec<String>`: the `Debug` texts of its strings between
/// brackets, separated by `", "`.
pub open spec fn debug_string_list(v: Seq<Seq<char>>) -> Seq<char> {
    "["@ + debug_joined(v) + "]"@
}

/// `format!("{:?}", s)`: the `Debug` text of a `String`.
#[verifier::external_body]
fn debug_text(s: &String) -> (r: String)
    ensures
        r@ == debug_string(s@),
{
    format!("{:?}", s)
}

/// The `Debug` text of a list of `String`s, as `format!("{:?}", v)` writes it.
fn debug_list(v: &Vec<String>) -> (r: String)
    ensures
        r@ == debug_string_list(v@.map_values(|s: String| s@)),
{
    proof {
        reveal_strlit("[");
        reveal_strlit(", ");
        reveal_strlit("]");
    }
    let ghost views = v@.map_values(|s: String| s@);
    let mut joined = String::new();
    let mut i: usize = 0;
    while i < v.len()
        invariant
            i <= v@.len(),
            views == v@.map_values(|s: String| s@),
            joined@ == debug_joined(views.take(i as int)),
        decreases v@.len() - i,
    {
        assert(views.take(i as int + 1).drop_last() =~= views.take(i as int));
        assert(views.take(i as int + 1).last() == v@[i as int]@);
        if i > 0 {
            joined.append(", ");
        }
        let item = debug_text(&v[i]);
        joined.append(item.as_str());
        proof {
            if i == 0 {
                assert(views.take(1).len() == 1);
            }
        }
        i = i + 1;
    }
    assert(views.take(v@.len() as int) =~= views);
    let mut r = String::from_str("[");
    r.append(joined.as_str());
    r.append("]");
    r
}

/// The message of a plugin loading error.
pub open spec fn load_error_text(e: PluginLoadError) -> Seq<char> {
    match e {
        PluginLoadError::LibraryLoadError { library_name, error } => "Не удалось загрузить библиотеку "@
            + library_name@ + ": "@ + error@,
        PluginLoadError::SymbolNotFound { library_name, symbols_name } => "Не удалось найти символы "@
            + debug_string(symbols_name@) + " в библиотеке "@ + library_name@,
        PluginLoadError::CyrcleDependency { node } => "Обнаружена циклическая зависимость: "@ + node@,
        PluginLoadError::MissingDependencies { plugin_name, depend } => "Не удалось загрузить плагин "@
            + plugin_name@ + ": отсутствуют зависимости: "@ + debug_string_list(
            depend@.map_values(|s: String| s@),
        ),
        PluginLoadError::MissingConfig { plugin_name } => "Не удалось загрузить плагин "@ + plugin_name@
            + ": отсутствует конфигурация"@,
        PluginLoadError::SymbolLoadError { library_name, symbol_name, error } => "Ошибка загрузки символа `"@
            + symbol_name@ + "` в библиотеке `"@ + library_name@ + "`: "@ + error@,
        PluginLoadError::PluginInitFailed { library_name, symbol_name, error } => "Вызов метода: `"@
            + symbol_name@ + "` завершился ошибкой `"@ + error@ + "`."@,
    }
}

impl PluginLoadError {
    /// The error's message.
    pub fn message(&self) -> (r: String)
        ensures
            r@ == load_error_text(*self),
    {
        match self {
            PluginLoadError::LibraryLoadError { library_name, error } => {
                let mut r = String::from_str("Не удалось загрузить библиотеку ");
                r.append(library_name.as_str());
                r.append(": ");
                r.append(error.as_str());
                r
            },
            PluginLoadError::SymbolNotFound { library_name, symbols_name } => {
                let mut r = String::from_str("Не удалось найти символы ");
                let q = debug_text(symbols_name);
                r.append(q.as_str());
                r.append(" в библиотеке ");
                r.append(library_name.as_str());
                r
            },
            PluginLoadError::CyrcleDependency { node } => {
                let mut r = String::from_str("Обнаружена циклическая зависимость: ");
                r.append(node.as_str());
                r
            },
            PluginLoadError::MissingDependencies { plugin_name, depend } => {
                let mut r = String::from_str("Не удалось загрузить плагин ");
                r.append(plugin_name.as_str());
                r.append(": отсутствуют зависимости: ");
                let q = debug_list(depend);
                r.append(q.as_str());
                r
            },
            PluginLoadError::MissingConfig { plugin_name } => {
                let mut r = String::from_str("Не удалось загрузить плагин ");
                r.append(plugin_name.as_str());
                r.append(": отсутствует конфигурация");
                r
            },
            PluginLoadError::SymbolLoadError { library_name, symbol_name, error } => {
                let mut r = String::from_str("Ошибка загрузки символа `");
                r.append(symbol_name.as_str());
                r.append("` в библиотеке `");
                r.append(library_name.as_str());
                r.append("`: ");
                r.append(error.as_str());
                r
            },
            PluginLoadError::PluginInitFailed { library_name, symbol_name, error } => {
                let mut r = String::from_str("Вызов метода: `");
                r.append(symbol_name.as_str());
                r.append("` завершился ошибкой `");
                r.append(error.as_str());
                r.append("`.");
                r
            },
        }
    }
}

/// State of a plugin known to the manager. `P` is the loaded plugin (its library and handle).
#[derive(Debug)]
pub enum PluginStatus<P> {
    Enable(P),
    Disable(P),
    Unloaded,
    LoadingFailed { library_name: String, error: String },
}

/// A plugin known to the manager, with the configuration it was last set up from.
#[derive(Debug)]
pub struct Plugin<P> {
    pub status: PluginStatus<P>,
    pub config: PluginOrderedConfig,
}

/// The state of a plugin, with texts taken by their views.
pub enum StatusView<P> {
    Enable(P),
    Disable(P),
    Unloaded,
    LoadingFailed { library_name: Seq<char>, error: Seq<char> },
}

/// A plugin, with texts taken by their views.
pub struct PluginView<P> {
    pub status: StatusView<P>,
    pub config: PluginOrderedConfig,
}

/// The view of a plugin's state.
pub open spec fn status_view<P>(s: PluginStatus<P>) -> StatusView<P> {
    match s {
        PluginStatus::Enable(p) => StatusView::Enable(p),
        PluginStatus::Disable(p) => StatusView::Disable(p),
        PluginStatus::Unloaded => StatusView::Unloaded,
        PluginStatus::LoadingFailed { library_name, error } => StatusView::LoadingFailed {
            library_name: library_name@,
            error: error@,
        },
    }
}

/// The code a round gives for a plugin that is not run: 1 for an unloaded plugin, 0 for a
/// disabled one and for one that failed to load; `None` for an enabled plugin, which is run.
pub open spec fn fixed_code<P>(s: StatusView<P>) -> Option<i32> {
    match s {
        StatusView::Enable(_) => None,
        StatusView::Disable(_) => Some(0),
        StatusView::Unloaded => Some(1),
        StatusView::LoadingFailed { .. } => Some(0),
    }
}

/// The loaded plugin that a state holds, if any.
pub open spec fn held_plugin<P>(s: StatusView<P>) -> Option<P> {
    match s {
        StatusView::Enable(p) => Some(p),
        StatusView::Disable(p) => Some(p),
        _ => None,
    }
}

impl<P> PluginStatus<P> {
    /// The code of a round for a plugin in this state when it is not run (see `fixed_code`).
    pub fn round_code(&self) -> (r: Option<i32>)
        ensures
            r == fixed_code(status_view(*self)),
    {
        match self {
            PluginStatus::Enable(_) => None,
            PluginStatus::Disable(_) => Some(0),
            PluginStatus::Unloaded => Some(1),
            PluginStatus::LoadingFailed { .. } => Some(0),
        }
    }

    /// Takes in the code a round gave for the plugin: 1 unloads it, and the loaded plugin it
    /// held, if any, is handed back to be freed; any other code changes nothing.
    pub fn settle(&mut self, code: i32) -> (r: Option<P>)
        ensures
            code == 1 ==> status_view(*final(self)) == StatusView::<P>::Unloaded && r == held_plugin(status_view(*old(self))),
            code != 1 ==> *final(self) == *old(self) && r is None,
    {
        if code != 1 {
            return None;
        }
        let mut old_status = PluginStatus::Unloaded;
        std::mem::swap(self, &mut old_status);
        match old_status {
            PluginStatus::Enable(p) => Some(p),
            PluginStatus::Disable(p) => Some(p),
            _ => None,
        }
    }
}

/// The view of a plugin.
pub open spec fn plugin_view<P>(p: Plugin<P>) -> PluginView<P> {
    PluginView { status: status_view(p.status), config: p.config }
}

/// The views of a list of plugins.
pub open spec fn plugins_view<P>(ps: Seq<Plugin<P>>) -> Seq<PluginView<P>> {
    ps.map_values(|p: Plugin<P>| plugin_view(p))
}

/// Whether the plugin at `i` is the first one named `name`.
pub open spec fn is_first_named<P>(ps: Seq<PluginView<P>>, name: Seq<char>, i: int) -> bool {
    &&& 0 <= i < ps.len()
    &&& ps[i].config.name@ == name
    &&& forall|j: int| 0 <= j < i ==> (#[trigger] ps[j]).config.name@ != name
}

/// Position of the first plugin named `name`, if any.
pub open spec fn first_named<P>(ps: Seq<PluginView<P>>, name: Seq<char>) -> Option<int> {
    if exists|i: int| is_first_named(ps, name, i) {
        Some(choose|i: int| is_first_named(ps, name, i))
    } else {
        None
    }
}

/// At most one position is the first one named `name`.
pub proof fn lemma_first_named_unique<P>(ps: Seq<PluginView<P>>, name: Seq<char>, i: int)
    requires
        is_first_named(ps, name, i),
    ensures
        first_named(ps, name) == Some(i),
{
    let k = choose|k: int| is_first_named(ps, name, k);
    assert(is_first_named(ps, name, k));
    if k < i {
        assert(ps[k].config.name@ != name);
    } else if i < k {
        assert(ps[i].config.name@ != name);
    }
}

/// No plugin is named `name`.
pub proof fn lemma_first_named_none<P>(ps: Seq<PluginView<P>>, name: Seq<char>)
    requires
        forall|j: int| 0 <= j < ps.len() ==> (#[trigger] ps[j]).config.name@ != name,
    ensures
        first_named(ps, name) is None,
{
}

/// The plugin that a configuration gives after its library was loaded with outcome `loaded`:
/// enabled with the loaded plugin, or marked as failed with the library path and the error's
/// message.
pub open spec fn loaded_plugin<P>(config: PluginOrderedConfig, loaded: Result<P, PluginLoadError>) -> PluginView<P> {
    match loaded {
        Ok(p) => PluginView { status: StatusView::Enable(p), config },
        Err(e) => PluginView {
            status: StatusView::LoadingFailed { library_name: config.path@, error: load_error_text(e) },
            config,
        },
    }
}

/// Whether applying `config` to the plugins `ps` loads a library: the plugin is enabled and
/// either new or marked for reload.
pub open spec fn needs_load<P>(ps: Seq<PluginView<P>>, config: PluginOrderedConfig) -> bool {
    config.enable && (first_named(ps, config.name@) is None || config.reload)
}

/// The plugins after applying one configuration, the outcome of the load being `loaded` when
/// one is needed:
/// - a disabled configuration disables the plugin of that name, keeping what was loaded, or
///   marks it unloaded when nothing was loaded; a new name is added as unloaded;
/// - an enabled configuration with a new name adds the loaded plugin at the end;
/// - an enabled configuration marked for reload replaces the plugin of that name: the old one
///   is removed and the loaded one added at the end; otherwise nothing changes.
pub open spec fn ordered_step<P>(
    ps: Seq<PluginView<P>>,
    config: PluginOrderedConfig,
    loaded: Option<Result<P, PluginLoadError>>,
) -> Seq<PluginView<P>> {
    match first_named(ps, config.name@) {
        Some(i) => if !config.enable {
            match ps[i].status {
                StatusView::Enable(p) => ps.update(i, PluginView { status: StatusView::Disable(p), config }),
                StatusView::Disable(p) => ps.update(i, PluginView { status: StatusView::Disable(p), config }),
                _ => ps.update(i, PluginView { status: StatusView::Unloaded, config: ps[i].config }),
            }
        } else if config.reload {
            ps.remove(i).push(loaded_plugin(config, loaded.unwrap()))
        } else {
            ps
        },
        None => if !config.enable {
            ps.push(PluginView { status: StatusView::Unloaded, config })
        } else {
            ps.push(loaded_plugin(config, loaded.unwrap()))
        },
    }
}

/// Manager of the loaded plugins, kept in the order of their configurations' `order` keys.
pub struct PluginManager<P> {
    plugins: Vec<Plugin<P>>,
}

impl<P> View for PluginManager<P> {
    type V = Seq<PluginView<P>>;

    closed spec fn view(&self) -> Seq<PluginView<P>> {
        plugins_view(self.plugins@)
    }
}

/// Position of the first plugin named `name`, searched from the front.
pub(crate) fn find_plugin<P>(ps: &Vec<Plugin<P>>, name: &String) -> (r: Option<usize>)
    ensures
        r matches Some(i) ==> is_first_named(plugins_view(ps@), name@, i as int),
        r is None ==> forall|j: int| 0 <= j < ps@.len() ==> (#[trigger] plugins_view(ps@)[j]).config.name@ != name@,
{
    let mut i: usize = 0;
    while i < ps.len()
        invariant
            i <= ps@.len(),
            forall|j: int| 0 <= j < i ==> (#[trigger] plugins_view(ps@)[j]).config.name@ != name@,
        decreases ps@.len() - i,
    {
        if ps[i].config.name == *name {
            return Some(i);
        }
        i = i + 1;
    }
    None
}

impl<P> PluginManager<P> {
    /// A manager with no plugins.
    pub fn new() -> (r: Self)
        ensures
            r@ == Seq::<PluginView<P>>::empty(),
    {
        let r = PluginManager { plugins: Vec::new() };
        assert(r@ =~= Seq::<PluginView<P>>::empty());
        r
    }

    /// Whether no plugin is known.
    pub fn is_empty(&self) -> (b: bool)
        ensures
            b == (self@.len() == 0),
    {
        self.plugins.len() == 0
    }

    /// Whether a plugin named `name` is known, whatever its state.
    pub fn is_loaded(&self, name: &str) -> (b: bool)
        ensures
            b == exists|i: int| 0 <= i < self@.len() && (#[trigger] self@[i]).config.name@ == name@,
    {
        let n = name.to_owned();
        match find_plugin(&self.plugins, &n) {
            Some(i) => {
                assert(self@[i as int].config.name@ == name@);
                true
            },
            None => false,
        }
    }

    /// The plugins, for the caller to inspect and change.
    pub fn get_plugins(&mut self) -> (r: &mut Vec<Plugin<P>>)
        ensures
            plugins_view(r@) == old(self)@,
            final(self)@ == plugins_view(final(r)@),
    {
        &mut self.plugins
    }

    /// Whether every known plugin is disabled.
    pub fn all_plugins_unloaded(&self) -> (b: bool)
        ensures
            b == forall|i: int| 0 <= i < self@.len() ==> (#[trigger] self@[i]).status is Disable,
    {
        let mut i: usize = 0;
        while i < self.plugins.len()
            invariant
                i <= self.plugins@.len(),
                forall|j: int| 0 <= j < i ==> (#[trigger] self@[j]).status is Disable,
            decreases self.plugins@.len() - i,
        {
            match &self.plugins[i].status {
                PluginStatus::Disable(_) => {},
                _ => {
                    assert(!(self@[i as int].status is Disable));
                    return false;
                },
            }
            i = i + 1;
        }
        true
    }
}

/// `s` with `x` inserted after every element whose key is not greater than `x`'s, `s` being
/// sorted by `key`.
pub open spec fn insert_sorted<T>(s: Seq<T>, x: T, key: spec_fn(T) -> i64) -> Seq<T>
    decreases s.len(),
{
    if s.len() == 0 {
        seq![x]
    } else if key(s.last()) <= key(x) {
        s.push(x)
    } else {
        insert_sorted(s.drop_last(), x, key).push(s.last())
    }
}

/// `s` sorted by `key`, elements with equal keys keeping their order (a stable sort).
pub open spec fn stable_sort_by<T>(s: Seq<T>, key: spec_fn(T) -> i64) -> Seq<T>
    decreases s.len(),
{
    if s.len() == 0 {
        s
    } else {
        insert_sorted(stable_sort_by(s.drop_last(), key), s.last(), key)
    }
}

/// The sort key of configurations: their `order`.
pub open spec fn config_order_key() -> spec_fn(PluginOrderedConfig) -> i64 {
    |c: PluginOrderedConfig| c.order
}

/// The sort key of plugins: their configuration's `order`.
pub open spec fn plugin_order_key<P>() -> spec_fn(Plugin<P>) -> i64 {
    |p: Plugin<P>| p.config.order
}

/// The sort key of plugin views: their configuration's `order`.
pub open spec fn view_order_key<P>() -> spec_fn(PluginView<P>) -> i64 {
    |p: PluginView<P>| p.config.order
}

/// `Vec::sort_by_key` with the key `order`: a stable sort of the configurations.
#[verifier::external_body]
fn sort_configs_by_order(v: &mut Vec<PluginOrderedConfig>)
    ensures
        final(v)@ == stable_sort_by(old(v)@, config_order_key()),
{
    v.sort_by_key(|a| a.order)
}

/// `Vec::sort_by_key` with the key `config.order`: a stable sort of the plugins.
#[verifier::external_body]
pub(crate) fn sort_plugins_by_order<P>(v: &mut Vec<Plugin<P>>)
    ensures
        final(v)@ == stable_sort_by(old(v)@, plugin_order_key::<P>()),
{
    v.sort_by_key(|p| p.config.order)
}

proof fn lemma_insert_sorted_map<P>(s: Seq<Plugin<P>>, x: Plugin<P>)
    ensures
        plugins_view(insert_sorted(s, x, plugin_order_key::<P>())) == insert_sorted(
            plugins_view(s),
            plugin_view(x),
            view_order_key::<P>(),
        ),
    decreases s.len(),
{
    let ka = plugin_order_key::<P>();
    let kb = view_order_key::<P>();
    if s.len() == 0 {
        assert(plugins_view(seq![x]) =~= seq![plugin_view(x)]);
    } else {
        assert(plugins_view(s).last() == plugin_view(s.last()));
        assert(plugins_view(s.drop_last()) =~= plugins_view(s).drop_last());
        if ka(s.last()) <= ka(x) {
            assert(plugins_view(s.push(x)) =~= plugins_view(s).push(plugin_view(x)));
        } else {
            lemma_insert_sorted_map(s.drop_last(), x);
            let t = insert_sorted(s.drop_last(), x, ka);
            assert(plugins_view(t.push(s.last())) =~= plugins_view(t).push(plugin_view(s.last())));
        }
    }
}

/// Sorting plugins by their order and then taking views gives the views sorted by order.
pub(crate) proof fn lemma_sort_map<P>(s: Seq<Plugin<P>>)
    ensures
        plugins_view(stable_sort_by(s, plugin_order_key::<P>())) == stable_sort_by(
            plugins_view(s),
            view_order_key::<P>(),
        ),
    decreases s.len(),
{
    if s.len() > 0 {
        lemma_sort_map(s.drop_last());
        assert(plugins_view(s.drop_last()) =~= plugins_view(s).drop_last());
        assert(plugins_view(s).last() == plugin_view(s.last()));
        lemma_insert_sorted_map(stable_sort_by(s.drop_last(), plugin_order_key::<P>()), s.last());
    }
}

/// The plugin made from a configuration and the outcome of loading its library.
fn make_loaded_plugin<P>(config: PluginOrderedConfig, loaded: Result<P, PluginLoadError>) -> (r: Plugin<P>)
    ensures
        plugin_view(r) == loaded_plugin(config, loaded),
{
    match loaded {
        Ok(p) => Plugin { status: PluginStatus::Enable(p), config },
        Err(e) => {
            let library_name = config.path.clone();
            let error = e.message();
            Plugin { status: PluginStatus::LoadingFailed { library_name, error }, config }
        },
    }
}

/// The plugins after applying each configuration of `cfgs` in turn, the `i`-th load having
/// outcome `outs[i]`.
pub open spec fn ordered_fold<P>(
    ps: Seq<PluginView<P>>,
    cfgs: Seq<PluginOrderedConfig>,
    outs: Seq<Option<Result<P, PluginLoadError>>>,
) -> Seq<PluginView<P>>
    decreases cfgs.len(),
{
    if cfgs.len() == 0 {
        ps
    } else {
        ordered_step(ordered_fold(ps, cfgs.drop_last(), outs.drop_last()), cfgs.last(), outs.last())
    }
}

/// `outs` are outcomes that `loader` may give when `cfgs` are applied in turn to `ps`: there is
/// an outcome exactly where a load is needed, and it is one the loader can return for that
/// configuration.
pub open spec fn outcomes_fit<P, F: Fn(&PluginOrderedConfig) -> Result<P, PluginLoadError>>(
    ps: Seq<PluginView<P>>,
    cfgs: Seq<PluginOrderedConfig>,
    outs: Seq<Option<Result<P, PluginLoadError>>>,
    loader: F,
) -> bool {
    &&& outs.len() == cfgs.len()
    &&& forall|i: int|
        0 <= i < cfgs.len() ==> ((#[trigger] outs[i]) is Some <==> needs_load(
            ordered_fold(ps, cfgs.take(i), outs.take(i)),
            cfgs[i],
        ))
    &&& forall|i: int|
        0 <= i < cfgs.len() ==> (#[trigger] outs[i] matches Some(o) ==> loader.ensures((&cfgs[i],), o))
}

impl<P> PluginManager<P> {
    /// Whether applying `config` loads a library (see `needs_load`).
    pub fn needs_load(&self, config: &PluginOrderedConfig) -> (b: bool)
        ensures
            b == needs_load(self@, *config),
    {
        if !config.enable {
            return false;
        }
        let idx = find_plugin(&self.plugins, &config.name);
        proof {
            match idx {
                Some(i) => lemma_first_named_unique(self@, config.name@, i as int),
                None => lemma_first_named_none(self@, config.name@),
            }
        }
        idx.is_none() || config.reload
    }

    /// Applies one configuration (see `ordered_step`); `loaded` is the outcome of loading the
    /// plugin's library, given exactly when a load is needed.
    pub fn apply_ordered_config(&mut self, config: PluginOrderedConfig, loaded: Option<Result<P, PluginLoadError>>)
        requires
            loaded is Some <==> needs_load(old(self)@, config),
        ensures
            final(self)@ == ordered_step(old(self)@, config, loaded),
    {
        let idx = find_plugin(&self.plugins, &config.name);
        proof {
            match idx {
                Some(i) => lemma_first_named_unique(self@, config.name@, i as int),
                None => lemma_first_named_none(self@, config.name@),
            }
        }
        let ghost before = self.plugins@;
        match idx {
            Some(i) => {
                if !config.enable {
                    let old_plugin = self.plugins.remove(i);
                    let Plugin { status, config: old_config } = old_plugin;
                    let new_plugin = match status {
                        PluginStatus::Enable(x) => Plugin { status: PluginStatus::Disable(x), config },
                        PluginStatus::Disable(x) => Plugin { status: PluginStatus::Disable(x), config },
                        _ => Plugin { status: PluginStatus::Unloaded, config: old_config },
                    };
                    self.plugins.insert(i, new_plugin);
                    assert(self@ =~= ordered_step(plugins_view(before), config, loaded));
                } else if config.reload {
                    let _ = self.plugins.remove(i);
                    match loaded {
                        Some(res) => {
                            let ghost c = config;
                            let np = make_loaded_plugin(config, res);
                            self.plugins.push(np);
                            assert(self@ =~= ordered_step(plugins_view(before), c, loaded));
                        },
                        None => {},
                    }
                }
            },
            None => {
                if !config.enable {
                    self.plugins.push(Plugin { status: PluginStatus::Unloaded, config });
                    assert(self@ =~= ordered_step(plugins_view(before), config, loaded));
                } else {
                    match loaded {
                        Some(res) => {
                            let ghost c = config;
                            let np = make_loaded_plugin(config, res);
                            self.plugins.push(np);
                            assert(self@ =~= ordered_step(plugins_view(before), c, loaded));
                        },
                        None => {},
                    }
                }
            },
        }
    }
}

proof fn lemma_fold_push<P>(
    start: Seq<PluginView<P>>,
    cfgs: Seq<PluginOrderedConfig>,
    outs: Seq<Option<Result<P, PluginLoadError>>>,
    x: Option<Result<P, PluginLoadError>>,
    i: int,
)
    requires
        0 <= i < cfgs.len(),
        outs.len() == i,
    ensures
        ordered_fold(start, cfgs.take(i + 1), outs.push(x)) == ordered_step(
            ordered_fold(start, cfgs.take(i), outs),
            cfgs[i],
            x,
        ),
        outs.push(x).drop_last() == outs,
        outs.push(x).take(i) == outs,
{
    assert(cfgs.take(i + 1).drop_last() == cfgs.take(i));
    assert(outs.push(x).drop_last() == outs);
    assert(outs.push(x).take(i) == outs);
    assert(cfgs.take(i + 1).last() == cfgs[i]);
}

impl<P> PluginManager<P> {
    /// Applies the configurations in the order of their `order` keys (a stable sort), loading
    /// a plugin's library with `loader` wherever `needs_load` says so, then sorts the plugins
    /// by their configurations' `order` keys (a stable sort).
    pub fn load_plugin_from_ordered_config<F>(&mut self, configs: Vec<PluginOrderedConfig>, loader: F) -> (r: Result<(), PluginLoadError>)
        where
            F: Fn(&PluginOrderedConfig) -> Result<P, PluginLoadError>,
        requires
            forall|c: &PluginOrderedConfig| loader.requires((c,)),
        ensures
            r is Ok,
            exists|outs: Seq<Option<Result<P, PluginLoadError>>>|
                outcomes_fit(old(self)@, stable_sort_by(configs@, config_order_key()), outs, loader)
                    && final(self)@ == stable_sort_by(
                    ordered_fold(old(self)@, stable_sort_by(configs@, config_order_key()), outs),
                    view_order_key::<P>(),
                ),
    {
        let mut configs = configs;
        sort_configs_by_order(&mut configs);
        let ghost cfgs = configs@;
        let ghost start = self@;
        let ghost mut outs: Seq<Option<Result<P, PluginLoadError>>> = Seq::empty();
        let mut i: usize = 0;
        while i < configs.len()
            invariant
                cfgs == configs@,
                i <= cfgs.len(),
                outs.len() == i,
                forall|c: &PluginOrderedConfig| loader.requires((c,)),
                forall|k: int|
                    0 <= k < i ==> ((#[trigger] outs[k]) is Some <==> needs_load(
                        ordered_fold(start, cfgs.take(k), outs.take(k)),
                        cfgs[k],
                    )),
                forall|k: int| 0 <= k < i ==> (#[trigger] outs[k] matches Some(o) ==> loader.ensures((&cfgs[k],), o)),
                self@ == ordered_fold(start, cfgs.take(i as int), outs),
            decreases cfgs.len() - i,
        {
            let config = configs[i].clone();
            let ghost prefix_state = self@;
            assert(outs.take(i as int) == outs);
            let loaded = if self.needs_load(&config) {
                Some(loader(&config))
            } else {
                None
            };
            let ghost old_outs = outs;
            proof {
                lemma_fold_push(start, cfgs, old_outs, loaded, i as int);
                outs = outs.push(loaded);
            }
            self.apply_ordered_config(config, loaded);
            assert forall|k: int| 0 <= k < i + 1 implies ((#[trigger] outs[k]) is Some <==> needs_load(
                ordered_fold(start, cfgs.take(k), outs.take(k)),
                cfgs[k],
            )) by {
                if k < i {
                    assert(outs.take(k) == outs.drop_last().take(k));
                } else {
                    assert(outs.take(k) == outs.drop_last());
                }
            }
            i = i + 1;
        }
        assert(cfgs.take(cfgs.len() as int) == cfgs);
        let ghost before_sort = self.plugins@;
        sort_plugins_by_order(&mut self.plugins);
        proof {
            lemma_sort_map(before_sort);
        }
        assert(outcomes_fit(start, cfgs, outs, loader));
        Ok(())
    }
}

} // verus!

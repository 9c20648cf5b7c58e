//! What holds of the configuration file across captures, workspace settings and restorations.
use crate::credential::contract::AuthConfigSnapshotView;
use crate::credential::files::FileReadView;
use crate::product_config::ProductConfigView;
use crate::credential::config;
use crate::credential::config::Entries;
use crate::toml_document as toml;
use crate::toml_document::TomlEntry;
use vstd::prelude::*;

verus! {

/// What a table of the file is left as by the four settings at the top.
proof fn top_settings_keep(entries: Entries, product: ProductConfigView, path: Seq<Seq<char>>)
    requires
        !toml::under(path, config::top("model"@)),
        !toml::under(path, config::top("model_provider"@)),
        !toml::under(path, config::top("cli_auth_credentials_store"@)),
        !toml::under(path, config::top("forced_login_method"@)),
    ensures
        config::selecting_router(entries, product).contains_key(path) == entries.contains_key(path),
        entries.contains_key(path) ==> config::selecting_router(entries, product)[path] == entries[path],
{
}

/// The provider settings at the end keep what is not among them.
proof fn provider_settings_keep(
    entries: Entries,
    product: ProductConfigView,
    path: Seq<Seq<char>>,
)
    requires
        !toml::under(path, config::provider_key(product, "name"@)),
        !toml::under(path, config::provider_key(product, "base_url"@)),
        !toml::under(path, config::provider_key(product, "wire_api"@)),
        !toml::under(path, config::provider_key(product, "requires_openai_auth"@)),
    ensures
        config::describing_router(entries, product).contains_key(path) == entries.contains_key(path),
        entries.contains_key(path) ==> config::describing_router(entries, product)[path] == entries[path],
{
}

/// A key at the top is outside of another key at the top, and of everything below it.
proof fn tops_apart(path: Seq<Seq<char>>, key: Seq<char>)
    requires
        path.len() > 0,
        path[0] != key,
    ensures
        !toml::under(path, config::top(key)),
{
    config::apart(path, config::top(key), 0);
}

/// Making sure of a table keeps everything that has not to make room for it.
proof fn with_table_keeps(entries: Entries, place: Seq<Seq<char>>, path: Seq<Seq<char>>)
    requires
        !(toml::under(path, place) && makes_room(entries, place, path)),
    ensures
        config::with_table(entries, place).contains_key(path) == entries.contains_key(path),
        entries.contains_key(path) ==> config::with_table(entries, place)[path] == entries[path],
{
    assert(place.take(place.len() as int) =~= place);
    assert(toml::under(place, place));
}

/// Whatever the file held before, it holds everything a workspace authorization needs once the
/// workspace settings have been put in.
pub proof fn workspace_settings_make_ready(entries: Entries, product: ProductConfigView)
    ensures
        config::router_ready(config::workspace_entries(entries, product), product),
{
    config::keys_differ();
    let m = config::top("model"@);
    let mp = config::top("model_provider"@);
    let cs = config::top("cli_auth_credentials_store"@);
    let fl = config::top("forced_login_method"@);
    let e1 = config::with_text(entries, m, product.default_model);
    let e2 = config::with_text(e1, mp, product.router_provider);
    let e3 = config::with_text(e2, cs, "file"@);
    let e4 = config::with_text(e3, fl, "api"@);
    config::grafted_here(entries, m, toml::single(TomlEntry::Text(product.default_model)));
    config::grafted_here(e1, mp, toml::single(TomlEntry::Text(product.router_provider)));
    config::grafted_here(e2, cs, toml::single(TomlEntry::Text("file"@)));
    config::grafted_here(e3, fl, toml::single(TomlEntry::Text("api"@)));
    tops_apart(m, "model_provider"@);
    tops_apart(m, "cli_auth_credentials_store"@);
    tops_apart(m, "forced_login_method"@);
    tops_apart(mp, "cli_auth_credentials_store"@);
    tops_apart(mp, "forced_login_method"@);
    tops_apart(cs, "forced_login_method"@);
    let e5 = config::with_table(e4, config::providers_path());
    let e6 = config::with_table(e5, config::provider_path(product));
    tops_apart(m, "model_providers"@);
    tops_apart(mp, "model_providers"@);
    tops_apart(cs, "model_providers"@);
    tops_apart(fl, "model_providers"@);
    let bu = config::provider_key(product, "base_url"@);
    let wa = config::provider_key(product, "wire_api"@);
    let ra = config::provider_key(product, "requires_openai_auth"@);
    let na = config::provider_key(product, "name"@);
    let f1 = config::with_text(e6, na, product.router_provider);
    let f2 = config::with_text(f1, bu, product.router_base_url);
    let f3 = config::with_text(f2, wa, "responses"@);
    config::grafted_here(f1, bu, toml::single(TomlEntry::Text(product.router_base_url)));
    config::grafted_here(f2, wa, toml::single(TomlEntry::Text("responses"@)));
    config::grafted_here(f3, ra, toml::single(TomlEntry::Flag(true)));
    config::apart(bu, wa, 2);
    config::apart(bu, ra, 2);
    config::apart(wa, ra, 2);
    assert forall|key: Seq<char>| key != "model_providers"@ implies {
        &&& #[trigger] config::describing_router(e6, product).contains_key(config::top(key)) == e4.contains_key(
            config::top(key),
        )
        &&& e4.contains_key(config::top(key)) ==> config::describing_router(e6, product)[config::top(key)] == e4[config::top(key)]
    } by {
        config::shorter(config::top(key), config::provider_path(product));
        tops_apart(config::top(key), "model_providers"@);
        with_table_keeps(e4, config::providers_path(), config::top(key));
        with_table_keeps(e5, config::provider_path(product), config::top(key));
        config::shorter(config::top(key), na);
        config::shorter(config::top(key), bu);
        config::shorter(config::top(key), wa);
        config::shorter(config::top(key), ra);
        provider_settings_keep(e6, product, config::top(key));
    }
    assert(config::workspace_entries(entries, product) == config::describing_router(e6, product));
    let w = config::workspace_entries(entries, product);
    tables_are_there(entries, product);
    assert(w.contains_key(m) == e4.contains_key(m));
    assert(w.contains_key(mp) == e4.contains_key(mp));
    assert(w.contains_key(cs) == e4.contains_key(cs));
    assert(w.contains_key(fl) == e4.contains_key(fl));
}

/// Whether what is at a path has to make room for a table: anything but a table or an inline table.
/// An inline table only becomes a table; everything in it stays.
pub open spec fn makes_room(entries: Entries, place: Seq<Seq<char>>, path: Seq<Seq<char>>) -> bool {
    !toml::is_table(entries, place) && (toml::is_inline(entries, place) ==> path == place)
}

/// Whether a path belongs to the settings that a workspace authorization manages, given what the
/// file holds: those settings themselves, and what has to make room for the tables around them.
pub open spec fn workspace_managed(
    entries: Entries,
    product: ProductConfigView,
    path: Seq<Seq<char>>,
) -> bool {
    ||| toml::under(path, config::top("model"@))
    ||| toml::under(path, config::top("model_provider"@))
    ||| toml::under(path, config::top("cli_auth_credentials_store"@))
    ||| toml::under(path, config::top("forced_login_method"@))
    ||| toml::under(path, config::providers_path()) && makes_room(entries, config::providers_path(), path)
    ||| toml::under(path, config::provider_path(product)) && makes_room(
        entries,
        config::provider_path(product),
        path,
    )
    ||| toml::under(path, config::provider_key(product, "name"@))
    ||| toml::under(path, config::provider_key(product, "base_url"@))
    ||| toml::under(path, config::provider_key(product, "wire_api"@))
    ||| toml::under(path, config::provider_key(product, "requires_openai_auth"@))
}

/// The workspace settings leave everything else in the file as it is.
pub proof fn workspace_settings_keep_the_rest(
    entries: Entries,
    product: ProductConfigView,
    path: Seq<Seq<char>>,
)
    requires
        !workspace_managed(entries, product, path),
    ensures
        config::workspace_entries(entries, product).contains_key(path) == entries.contains_key(path),
        entries.contains_key(path) ==> config::workspace_entries(entries, product)[path] == entries[path],
{
    config::keys_differ();
    let e4 = config::selecting_router(entries, product);
    let e5 = config::with_table(e4, config::providers_path());
    let e6 = config::with_table(e5, config::provider_path(product));
    top_settings_keep(entries, product, path);
    tops_apart(config::providers_path(), "model"@);
    tops_apart(config::providers_path(), "model_provider"@);
    tops_apart(config::providers_path(), "cli_auth_credentials_store"@);
    tops_apart(config::providers_path(), "forced_login_method"@);
    top_settings_keep(entries, product, config::providers_path());
    tops_apart(config::provider_path(product), "model"@);
    tops_apart(config::provider_path(product), "model_provider"@);
    tops_apart(config::provider_path(product), "cli_auth_credentials_store"@);
    tops_apart(config::provider_path(product), "forced_login_method"@);
    top_settings_keep(entries, product, config::provider_path(product));
    provider_settings_keep(e6, product, path);
    if toml::under(path, config::provider_path(product)) {
        assert(path.take(1) =~= path.take(2).take(1));
        assert(config::provider_path(product).take(1) =~= config::providers_path());
        assert(toml::under(path, config::providers_path()));
        assert(path != config::providers_path());
    }
    config::shorter(config::providers_path(), config::provider_path(product));
    assert(config::provider_path(product).take(1) =~= config::providers_path());
    assert(toml::under(config::provider_path(product), config::providers_path()));
    with_table_keeps(e4, config::providers_path(), path);
    if toml::is_table(entries, config::providers_path()) || toml::is_inline(
        entries,
        config::providers_path(),
    ) {
        with_table_keeps(e4, config::providers_path(), config::provider_path(product));
    }
    if toml::under(path, config::provider_path(product)) && makes_room(
        e5,
        config::provider_path(product),
        path,
    ) {
        assert(makes_room(entries, config::providers_path(), path) || makes_room(
            entries,
            config::provider_path(product),
            path,
        ));
    }
    with_table_keeps(e5, config::provider_path(product), path);
}

/// Written to the file and read back, the workspace settings make it ready: the file that
/// `ensure_workspace_config` gives is ready whenever it can be read as a document.
pub proof fn written_workspace_settings_are_ready(
    entries: Entries,
    product: ProductConfigView,
    bytes: Seq<u8>,
)
    requires
        config::reads_back(bytes, config::workspace_entries(entries, product)),
        config::config_entries(FileReadView::Content(bytes)) is Ok,
    ensures
        config::config_ready(FileReadView::Content(bytes), product),
{
    workspace_settings_make_ready(entries, product);
    let back = config::config_entries(FileReadView::Content(bytes))->Ok_0;
    let w = config::workspace_entries(entries, product);
    same_leaves_same_values(back, w);
    tables_come_back(entries, product, back);
}

/// With the workspace settings in, the model providers and the routing provider are tables.
proof fn tables_are_there(entries: Entries, product: ProductConfigView)
    ensures
        toml::is_table(config::workspace_entries(entries, product), config::providers_path()),
        toml::is_table(config::workspace_entries(entries, product), config::provider_path(product)),
{
    let e4 = config::selecting_router(entries, product);
    let e5 = config::with_table(e4, config::providers_path());
    let e6 = config::with_table(e5, config::provider_path(product));
    config::grafted_here(e4, config::providers_path(), toml::single(TomlEntry::Table));
    config::grafted_here(e5, config::provider_path(product), toml::single(TomlEntry::Table));
    config::shorter(config::providers_path(), config::provider_path(product));
    keys_are_longer(product, config::providers_path());
    keys_are_longer(product, config::provider_path(product));
    provider_settings_keep(e6, product, config::providers_path());
    provider_settings_keep(e6, product, config::provider_path(product));
}

/// Read back, the model providers and the routing provider are tables.
proof fn tables_come_back(entries: Entries, product: ProductConfigView, back: Entries)
    requires
        toml::read_back(back, config::workspace_entries(entries, product)),
    ensures
        toml::is_table(back, config::providers_path()),
        toml::is_table(back, config::provider_path(product)),
{
    let w = config::workspace_entries(entries, product);
    let leaf = config::provider_key(product, "base_url"@);
    tables_are_there(entries, product);
    workspace_settings_make_ready(entries, product);
    leaf_at(w, leaf);
    assert(leaf.take(1) =~= config::providers_path());
    assert(leaf.take(2) =~= config::provider_path(product));
    assert(toml::under(leaf, config::providers_path()));
    assert(toml::under(leaf, config::provider_path(product)));
}

/// No path is under a longer one: the settings of the routing provider have three keys.
proof fn keys_are_longer(product: ProductConfigView, path: Seq<Seq<char>>)
    requires
        path.len() < 3,
    ensures
        !toml::under(path, config::provider_key(product, "name"@)),
        !toml::under(path, config::provider_key(product, "base_url"@)),
        !toml::under(path, config::provider_key(product, "wire_api"@)),
        !toml::under(path, config::provider_key(product, "requires_openai_auth"@)),
{
}

/// Putting the workspace settings into a file that they were put into before changes no value in it,
/// and it stays ready.
///
/// Its bytes are another matter: a header that is written out for the first time may drop white
/// space from another. With `[model_providers.p . headers]` alone, the first call adds
/// `[model_providers.p]` before it, and the second writes `[model_providers.p. headers]`.
pub proof fn workspace_settings_stay(
    file: FileReadView,
    product: ProductConfigView,
    bytes: Seq<u8>,
    again: Seq<u8>,
)
    requires
        config::workspace_content(file, product, bytes),
        config::readable(bytes),
        config::workspace_content(FileReadView::Content(bytes), product, again),
        config::readable(again),
    ensures
        toml::leaves(config::config_entries(FileReadView::Content(again))->Ok_0) == toml::leaves(
            config::config_entries(FileReadView::Content(bytes))->Ok_0,
        ),
        config::config_ready(FileReadView::Content(again), product),
{
    let a = config::config_entries(file)->Ok_0;
    let b = config::config_entries(FileReadView::Content(bytes))->Ok_0;
    let wa = config::workspace_entries(a, product);
    let wb = config::workspace_entries(b, product);
    tables_come_back(a, product, b);
    written_workspace_settings_are_ready(b, product, again);
    assert forall|path: Seq<Seq<char>>| #[trigger]
        toml::leaves(wb).contains_key(path) == toml::leaves(b).contains_key(path) && (
    toml::leaves(b).contains_key(path) ==> toml::leaves(wb)[path] == toml::leaves(b)[path]) by {
        leaf_at(wa, path);
        leaf_at(wb, path);
        leaf_at(b, path);
        if workspace_managed(b, product, path) {
            managed_values_are_fixed(a, b, product, path);
            assert(toml::leaves(b).contains_key(path) == toml::leaves(wa).contains_key(path));
        } else {
            workspace_settings_keep_the_rest(b, product, path);
        }
    }
    assert(toml::leaves(wb) =~= toml::leaves(b));
}

/// What stands at and under the settings that a workspace authorization manages does not depend on
/// what the file held.
proof fn managed_values_are_fixed(
    a: Entries,
    b: Entries,
    product: ProductConfigView,
    path: Seq<Seq<char>>,
)
    requires
        toml::is_table(b, config::providers_path()),
        toml::is_table(b, config::provider_path(product)),
        workspace_managed(b, product, path),
    ensures
        config::workspace_entries(a, product).contains_key(path) == config::workspace_entries(
            b,
            product,
        ).contains_key(path),
        config::workspace_entries(a, product).contains_key(path) ==> config::workspace_entries(
            a,
            product,
        )[path] == config::workspace_entries(b, product)[path],
{
    if toml::under(path, config::top("model"@)) || toml::under(
        path,
        config::top("model_provider"@),
    ) || toml::under(path, config::top("cli_auth_credentials_store"@)) || toml::under(
        path,
        config::top("forced_login_method"@),
    ) {
        config::keys_differ();
        assert(path[0] == path.take(1)[0]);
        assert(path[0] != "model_providers"@);
        tops_apart(path, "model_providers"@);
        config::apart(path, config::provider_path(product), 0);
        config::apart(path, config::provider_key(product, "name"@), 0);
        config::apart(path, config::provider_key(product, "base_url"@), 0);
        config::apart(path, config::provider_key(product, "wire_api"@), 0);
        config::apart(path, config::provider_key(product, "requires_openai_auth"@), 0);
        let ea = config::selecting_router(a, product);
        let eb = config::selecting_router(b, product);
        let fa = config::with_table(ea, config::providers_path());
        let fb = config::with_table(eb, config::providers_path());
        with_table_keeps(ea, config::providers_path(), path);
        with_table_keeps(eb, config::providers_path(), path);
        with_table_keeps(fa, config::provider_path(product), path);
        with_table_keeps(fb, config::provider_path(product), path);
    }
}

/// Entries with the same values agree on every string and every boolean.
pub proof fn same_leaves_same_values(a: Entries, b: Entries)
    requires
        toml::leaves(a) == toml::leaves(b),
    ensures
        forall|path: Seq<Seq<char>>| #[trigger] toml::text_entry(a, path) == toml::text_entry(b, path),
        forall|path: Seq<Seq<char>>| #[trigger] toml::flag_entry(a, path) == toml::flag_entry(b, path),
{
    assert forall|path: Seq<Seq<char>>| #[trigger] toml::text_entry(a, path) == toml::text_entry(b, path) by {
        leaf_at(a, path);
        leaf_at(b, path);
    }
    assert forall|path: Seq<Seq<char>>| #[trigger] toml::flag_entry(a, path) == toml::flag_entry(b, path) by {
        leaf_at(a, path);
        leaf_at(b, path);
    }
}

/// What the values among the entries say of one path.
proof fn leaf_at(entries: Entries, path: Seq<Seq<char>>)
    ensures
        toml::leaves(entries).contains_key(path) == (entries.contains_key(path) && entries[path]
            != TomlEntry::Table && entries[path] != TomlEntry::Inline),
        toml::leaves(entries).contains_key(path) ==> toml::leaves(entries)[path] == entries[path],
{
}

/// The settings at the top after a snapshot has been put there.
proof fn top_settings_come_back(entries: Entries, snapshot: AuthConfigSnapshotView)
    ensures
        toml::text_entry(config::with_top_settings(entries, snapshot), config::top("model"@)) == snapshot.model,
        toml::text_entry(config::with_top_settings(entries, snapshot), config::top("model_provider"@))
            == snapshot.model_provider,
        toml::text_entry(config::with_top_settings(entries, snapshot), config::top("forced_login_method"@))
            == snapshot.forced_login_method,
        toml::text_entry(config::with_top_settings(entries, snapshot), config::top("cli_auth_credentials_store"@))
            == snapshot.cli_auth_credentials_store,
        forall|path: Seq<Seq<char>>|
            !toml::under(path, config::top("model"@)) && !toml::under(path, config::top("model_provider"@)) && !toml::under(
                path,
                config::top("forced_login_method"@),
            ) && !toml::under(path, config::top("cli_auth_credentials_store"@)) ==> {
                &&& #[trigger] config::with_top_settings(entries, snapshot).contains_key(path)
                    == entries.contains_key(path)
                &&& entries.contains_key(path) ==> config::with_top_settings(entries, snapshot)[path]
                    == entries[path]
            },
{
    config::keys_differ();
    let m = config::top("model"@);
    let mp = config::top("model_provider"@);
    let fl = config::top("forced_login_method"@);
    let cs = config::top("cli_auth_credentials_store"@);
    let e1 = config::with_option(entries, m, snapshot.model);
    let e2 = config::with_option(e1, mp, snapshot.model_provider);
    let e3 = config::with_option(e2, fl, snapshot.forced_login_method);
    option_here(entries, m, snapshot.model);
    option_here(e1, mp, snapshot.model_provider);
    option_here(e2, fl, snapshot.forced_login_method);
    option_here(e3, cs, snapshot.cli_auth_credentials_store);
    tops_apart(m, "model_provider"@);
    tops_apart(m, "forced_login_method"@);
    tops_apart(m, "cli_auth_credentials_store"@);
    tops_apart(mp, "forced_login_method"@);
    tops_apart(mp, "cli_auth_credentials_store"@);
    tops_apart(fl, "cli_auth_credentials_store"@);
}

/// An optional string is what is found where it was put.
proof fn option_here(entries: Entries, path: Seq<Seq<char>>, value: Option<Seq<char>>)
    ensures
        toml::text_entry(config::with_option(entries, path, value), path) == value,
{
    assert(path.take(path.len() as int) =~= path);
    match value {
        Some(found) => {
            config::grafted_here(entries, path, toml::single(TomlEntry::Text(found)));
        },
        None => {},
    }
}

/// Whether a path belongs to the settings that restoring a snapshot manages.
pub open spec fn snapshot_managed(
    entries: Entries,
    snapshot: AuthConfigSnapshotView,
    product: ProductConfigView,
    path: Seq<Seq<char>>,
) -> bool {
    ||| toml::under(path, config::top("model"@))
    ||| toml::under(path, config::top("model_provider"@))
    ||| toml::under(path, config::top("forced_login_method"@))
    ||| toml::under(path, config::top("cli_auth_credentials_store"@))
    ||| toml::under(path, config::providers_path()) && makes_room(
        entries,
        config::providers_path(),
        path,
    ) && (snapshot.router_provider_item is Some || entries.contains_key(
        config::provider_path(product),
    ))
    ||| toml::under(path, config::provider_path(product))
}

/// Restoring a snapshot leaves everything else in the file as it is.
pub proof fn restoring_keeps_the_rest(
    entries: Entries,
    snapshot: AuthConfigSnapshotView,
    product: ProductConfigView,
    path: Seq<Seq<char>>,
)
    requires
        config::restored_entries(entries, snapshot, product) is Ok,
        !snapshot_managed(entries, snapshot, product, path),
    ensures
        config::restored_entries(entries, snapshot, product)->Ok_0.contains_key(path)
            == entries.contains_key(path),
        entries.contains_key(path) ==> config::restored_entries(entries, snapshot, product)->Ok_0[path]
            == entries[path],
{
    config::keys_differ();
    top_settings_come_back(entries, snapshot);
    tops_apart(config::providers_path(), "model"@);
    tops_apart(config::providers_path(), "model_provider"@);
    tops_apart(config::providers_path(), "cli_auth_credentials_store"@);
    tops_apart(config::providers_path(), "forced_login_method"@);
    let settled = config::with_top_settings(entries, snapshot);
    assert(settled.contains_key(path) == entries.contains_key(path));
    assert(settled.contains_key(config::providers_path()) == entries.contains_key(config::providers_path()));
    tops_apart(config::provider_path(product), "model"@);
    tops_apart(config::provider_path(product), "model_provider"@);
    tops_apart(config::provider_path(product), "cli_auth_credentials_store"@);
    tops_apart(config::provider_path(product), "forced_login_method"@);
    assert(settled.contains_key(config::provider_path(product)) == entries.contains_key(
        config::provider_path(product),
    ));
    assert(config::providers_path().take(1) =~= config::providers_path());
    assert(toml::under(config::providers_path(), config::providers_path()));
}

/// Restoring a snapshot makes its settings the ones that the file holds.
pub proof fn restoring_brings_the_settings(
    entries: Entries,
    snapshot: AuthConfigSnapshotView,
    product: ProductConfigView,
)
    requires
        config::restored_entries(entries, snapshot, product) is Ok,
    ensures
        ({
            let back = config::restored_entries(entries, snapshot, product)->Ok_0;
            &&& toml::text_entry(back, config::top("model"@)) == snapshot.model
            &&& toml::text_entry(back, config::top("model_provider"@)) == snapshot.model_provider
            &&& toml::text_entry(back, config::top("forced_login_method"@)) == snapshot.forced_login_method
            &&& toml::text_entry(back, config::top("cli_auth_credentials_store"@))
                == snapshot.cli_auth_credentials_store
        }),
{
    config::keys_differ();
    top_settings_come_back(entries, snapshot);
    let settled = config::with_top_settings(entries, snapshot);
    let back = config::restored_entries(entries, snapshot, product)->Ok_0;
    assert forall|key: Seq<char>| key != "model_providers"@ implies #[trigger] toml::text_entry(
        back,
        config::top(key),
    ) == toml::text_entry(settled, config::top(key)) by {
        config::shorter(config::top(key), config::provider_path(product));
        tops_apart(config::top(key), "model_providers"@);
    }
}

/// What is captured of a file comes back: whatever the file holds in between, once the snapshot is
/// restored it holds the four settings at the top that it held at first, and the same values in its
/// routing provider.
pub proof fn captured_settings_come_back(
    entries: Entries,
    between: Entries,
    snapshot: AuthConfigSnapshotView,
    product: ProductConfigView,
)
    requires
        config::captures(snapshot, entries, product),
        config::restored_entries(between, snapshot, product) is Ok,
    ensures
        ({
            let back = config::restored_entries(between, snapshot, product)->Ok_0;
            &&& toml::text_entry(back, config::top("model"@)) == toml::text_entry(entries, config::top("model"@))
            &&& toml::text_entry(back, config::top("model_provider"@)) == toml::text_entry(
                entries,
                config::top("model_provider"@),
            )
            &&& toml::text_entry(back, config::top("forced_login_method"@)) == toml::text_entry(
                entries,
                config::top("forced_login_method"@),
            )
            &&& toml::text_entry(back, config::top("cli_auth_credentials_store"@)) == toml::text_entry(
                entries,
                config::top("cli_auth_credentials_store"@),
            )
            &&& toml::leaves(toml::subtree(back, config::provider_path(product))) == toml::leaves(
                toml::subtree(entries, config::provider_path(product)),
            )
        }),
{
    config::keys_differ();
    let path = config::provider_path(product);
    restoring_brings_the_settings(between, snapshot, product);
    let back = config::restored_entries(between, snapshot, product)->Ok_0;
    match snapshot.router_provider_item {
        Some(rendered) => {
            let stored = toml::toml_read(rendered)->0;
            let own = config::provider_document(entries, product);
            assert(toml::leaves(stored) == toml::leaves(own));
            assert forall|rest: Seq<Seq<char>>| #[trigger]
                toml::subtree(back, path).contains_key(rest) == toml::subtree(stored, path).contains_key(
                    rest,
                ) by {
                below_prefix(path, rest);
            }
            assert(toml::subtree(back, path) =~= toml::subtree(stored, path)) by {
                assert forall|rest: Seq<Seq<char>>| #[trigger]
                    toml::subtree(back, path).contains_key(rest) implies toml::subtree(back, path)[rest]
                    == toml::subtree(stored, path)[rest] by {
                    below_prefix(path, rest);
                }
            }
            assert(toml::subtree(own, path) =~= toml::subtree(entries, path)) by {
                assert forall|rest: Seq<Seq<char>>| #[trigger]
                    toml::subtree(own, path).contains_key(rest) == toml::subtree(entries, path).contains_key(
                        rest,
                    ) by {
                    below_prefix(path, rest);
                }
                assert forall|rest: Seq<Seq<char>>| #[trigger]
                    toml::subtree(own, path).contains_key(rest) implies toml::subtree(own, path)[rest]
                    == toml::subtree(entries, path)[rest] by {
                    below_prefix(path, rest);
                }
            }
            leaves_below(stored, own, path);
        },
        None => {
            assert forall|rest: Seq<Seq<char>>| !#[trigger] toml::subtree(back, path).contains_key(
                rest,
            ) by {
                below_prefix(path, rest);
            }
            assert forall|rest: Seq<Seq<char>>| !#[trigger] toml::subtree(entries, path).contains_key(
                rest,
            ) by {
                below_prefix(path, rest);
            }
            assert(toml::leaves(toml::subtree(back, path)) =~= toml::leaves(toml::subtree(entries, path)));
        },
    }
}

/// What is no setting of a workspace authorization has the same value in the file that
/// `ensure_workspace_config` gives as it had before, other providers and the other settings of the
/// routing provider among it.
pub proof fn workspace_content_keeps_the_rest(
    file: FileReadView,
    product: ProductConfigView,
    content: Seq<u8>,
    path: Seq<Seq<char>>,
)
    requires
        config::workspace_content(file, product, content),
        config::readable(content),
        !workspace_managed(config::config_entries(file)->Ok_0, product, path),
    ensures
        ({
            let before = toml::leaves(config::config_entries(file)->Ok_0);
            let after = toml::leaves(
                config::config_entries(FileReadView::Content(content))->Ok_0,
            );
            &&& after.contains_key(path) == before.contains_key(path)
            &&& before.contains_key(path) ==> after[path] == before[path]
        }),
{
    let a = config::config_entries(file)->Ok_0;
    let b = config::config_entries(FileReadView::Content(content))->Ok_0;
    let w = config::workspace_entries(a, product);
    workspace_settings_keep_the_rest(a, product, path);
    leaf_at(a, path);
    leaf_at(w, path);
    assert(toml::leaves(b) == toml::leaves(w));
}

/// The file that `apply_auth_config` gives holds the settings of the snapshot, and every other value
/// that it held before.
pub proof fn restored_content_holds_the_settings(
    file: FileReadView,
    snapshot: AuthConfigSnapshotView,
    product: ProductConfigView,
    content: Seq<u8>,
)
    requires
        config::restored_content(file, snapshot, product, content),
        config::readable(content),
    ensures
        ({
            let before = config::config_entries(file)->Ok_0;
            let after = config::config_entries(FileReadView::Content(content))->Ok_0;
            &&& toml::text_entry(after, config::top("model"@)) == snapshot.model
            &&& toml::text_entry(after, config::top("model_provider"@)) == snapshot.model_provider
            &&& toml::text_entry(after, config::top("forced_login_method"@))
                == snapshot.forced_login_method
            &&& toml::text_entry(after, config::top("cli_auth_credentials_store"@))
                == snapshot.cli_auth_credentials_store
            &&& forall|path: Seq<Seq<char>>|
                !snapshot_managed(before, snapshot, product, path) ==> (#[trigger] toml::leaves(
                    after,
                ).contains_key(path) == toml::leaves(before).contains_key(path) && (toml::leaves(
                    before,
                ).contains_key(path) ==> toml::leaves(after)[path] == toml::leaves(before)[path]))
        }),
{
    let a = config::config_entries(file)->Ok_0;
    let b = config::config_entries(FileReadView::Content(content))->Ok_0;
    let r = config::restored_entries(a, snapshot, product)->Ok_0;
    restoring_brings_the_settings(a, snapshot, product);
    same_leaves_same_values(b, r);
    assert forall|path: Seq<Seq<char>>|
        !snapshot_managed(a, snapshot, product, path) implies (#[trigger] toml::leaves(
        b,
    ).contains_key(path) == toml::leaves(a).contains_key(path) && (toml::leaves(a).contains_key(path)
        ==> toml::leaves(b)[path] == toml::leaves(a)[path])) by {
        restoring_keeps_the_rest(a, snapshot, product, path);
        leaf_at(a, path);
        leaf_at(r, path);
    }
}

/// Whether a path is none of the settings that go with an authorization: not one of the four at the
/// top, not in the routing provider, and nothing that has to make room for the model providers.
pub open spec fn unmanaged(
    entries: Entries,
    product: ProductConfigView,
    path: Seq<Seq<char>>,
) -> bool {
    &&& !toml::under(path, config::top("model"@))
    &&& !toml::under(path, config::top("model_provider"@))
    &&& !toml::under(path, config::top("cli_auth_credentials_store"@))
    &&& !toml::under(path, config::top("forced_login_method"@))
    &&& !toml::under(path, config::provider_path(product))
    &&& toml::under(path, config::providers_path()) ==> toml::is_table(
        entries,
        config::providers_path(),
    ) || toml::is_inline(entries, config::providers_path())
}

/// Whether the second entries hold what goes with an authorization as the first do, and every other
/// value too: the four settings at the top, the values in the routing provider, and all that is
/// unmanaged.
pub open spec fn same_settings(a: Entries, b: Entries, product: ProductConfigView) -> bool {
    &&& toml::text_entry(b, config::top("model"@)) == toml::text_entry(a, config::top("model"@))
    &&& toml::text_entry(b, config::top("model_provider"@)) == toml::text_entry(
        a,
        config::top("model_provider"@),
    )
    &&& toml::text_entry(b, config::top("forced_login_method"@)) == toml::text_entry(
        a,
        config::top("forced_login_method"@),
    )
    &&& toml::text_entry(b, config::top("cli_auth_credentials_store"@)) == toml::text_entry(
        a,
        config::top("cli_auth_credentials_store"@),
    )
    &&& toml::leaves(toml::subtree(b, config::provider_path(product))) == toml::leaves(
        toml::subtree(a, config::provider_path(product)),
    )
    &&& forall|path: Seq<Seq<char>>|
        unmanaged(a, product, path) ==> #[trigger] toml::leaves(b).contains_key(path)
            == toml::leaves(a).contains_key(path) && (toml::leaves(a).contains_key(path)
            ==> toml::leaves(b)[path] == toml::leaves(a)[path])
}

/// What a configuration file holds comes back once the workspace settings were put in and what was
/// captured of it before was restored: `first` is the file before, `second` the file with the
/// workspace settings and `third` the file after.
pub proof fn settings_come_back(
    first: FileReadView,
    second: Seq<u8>,
    third: Seq<u8>,
    snapshot: AuthConfigSnapshotView,
    product: ProductConfigView,
)
    requires
        config::config_entries(first) is Ok,
        config::captures(snapshot, config::config_entries(first)->Ok_0, product),
        config::workspace_content(first, product, second),
        config::readable(second),
        config::restored_content(FileReadView::Content(second), snapshot, product, third),
        config::readable(third),
    ensures
        same_settings(
            config::config_entries(first)->Ok_0,
            config::config_entries(FileReadView::Content(third))->Ok_0,
            product,
        ),
{
    config::keys_differ();
    let a = config::config_entries(first)->Ok_0;
    let b = config::config_entries(FileReadView::Content(second))->Ok_0;
    let c = config::config_entries(FileReadView::Content(third))->Ok_0;
    let r = config::restored_entries(b, snapshot, product)->Ok_0;
    let w = config::workspace_entries(a, product);
    captured_settings_come_back(a, b, snapshot, product);
    same_leaves_same_values(c, r);
    leaves_below(c, r, config::provider_path(product));
    tables_come_back(a, product, b);
    assert forall|path: Seq<Seq<char>>| unmanaged(a, product, path) implies #[trigger] toml::leaves(
        c,
    ).contains_key(path) == toml::leaves(a).contains_key(path) && (toml::leaves(a).contains_key(path)
        ==> toml::leaves(c)[path] == toml::leaves(a)[path]) by {
        restoring_keeps_the_rest(b, snapshot, product, path);
        leaf_at(a, path);
        leaf_at(b, path);
        leaf_at(c, path);
        leaf_at(r, path);
        leaf_at(w, path);
        keys_are_below(product, path);
        if !workspace_managed(a, product, path) {
            workspace_settings_keep_the_rest(a, product, path);
        } else {
            assert(path == config::providers_path() && toml::is_inline(a, path));
            assert(toml::is_table(b, path));
        }
    }
}

/// What is under a setting of the routing provider is in the routing provider.
proof fn keys_are_below(product: ProductConfigView, path: Seq<Seq<char>>)
    ensures
        forall|key: Seq<char>| #[trigger]
            toml::under(path, config::provider_key(product, key)) ==> toml::under(
                path,
                config::provider_path(product),
            ),
{
    assert forall|key: Seq<char>| #[trigger]
        toml::under(path, config::provider_key(product, key)) implies toml::under(
        path,
        config::provider_path(product),
    ) by {
        assert(path.take(3).take(2) =~= path.take(2));
        assert(config::provider_key(product, key).take(2) =~= config::provider_path(product));
    }
}

/// A path that goes on from a prefix is under it and goes on with the rest.
proof fn below_prefix(prefix: Seq<Seq<char>>, rest: Seq<Seq<char>>)
    ensures
        toml::under(prefix + rest, prefix),
        (prefix + rest).skip(prefix.len() as int) == rest,
{
    assert((prefix + rest).take(prefix.len() as int) =~= prefix);
    assert((prefix + rest).skip(prefix.len() as int) =~= rest);
}

/// Entries with the same values have the same values under every path.
proof fn leaves_below(a: Entries, b: Entries, path: Seq<Seq<char>>)
    requires
        toml::leaves(a) == toml::leaves(b),
    ensures
        toml::leaves(toml::subtree(a, path)) == toml::leaves(toml::subtree(b, path)),
{
    assert forall|rest: Seq<Seq<char>>| #[trigger]
        toml::leaves(toml::subtree(a, path)).contains_key(rest) == toml::leaves(toml::subtree(b, path)).contains_key(
            rest,
        ) by {
        leaf_at(a, path + rest);
        leaf_at(b, path + rest);
    }
    assert forall|rest: Seq<Seq<char>>| #[trigger]
        toml::leaves(toml::subtree(a, path)).contains_key(rest) implies toml::leaves(toml::subtree(a, path))[rest]
        == toml::leaves(toml::subtree(b, path))[rest] by {
        leaf_at(a, path + rest);
        leaf_at(b, path + rest);
    }
    assert(toml::leaves(toml::subtree(a, path)) =~= toml::leaves(toml::subtree(b, path)));
}

} // verus!

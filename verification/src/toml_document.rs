//! TOML documents: what stands at which key path, and how edits change it.
use vstd::prelude::*;

verus! {

/// What stands under a key of a TOML document.
pub enum TomlEntry {
    /// A table, written with a header of its own or with dotted keys.
    Table,
    /// An inline table.
    Inline,
    /// A string.
    Text(Seq<char>),
    /// A boolean.
    Flag(bool),
    /// A list of tables with headers of their own, as a text that stands for its value.
    Tables(Seq<char>),
    /// Anything else, as a text that stands for its value.
    Other(Seq<char>),
}

/// A TOML document that keeps its formatting.
#[verifier::external_type_specification]
#[verifier::external_body]
pub struct ExDocumentMut(toml_edit::DocumentMut);

/// A table of a TOML document.
#[verifier::external_type_specification]
#[verifier::external_body]
pub struct ExTable(toml_edit::Table);

/// What stands under one key of a TOML table.
#[verifier::external_type_specification]
#[verifier::external_body]
pub struct ExItem(toml_edit::Item);

/// Why a text is no TOML document.
#[verifier::external_type_specification]
#[verifier::external_body]
pub struct ExTomlError(toml_edit::TomlError);

/// The entries of a document, each under the keys that lead to it through tables and inline tables.
/// Arrays and lists of tables are single entries.
pub uninterp spec fn toml_entries(document: toml_edit::DocumentMut) -> Map<
    Seq<Seq<char>>,
    TomlEntry,
>;

/// The entries of a table, each under the keys that lead to it through tables and inline tables.
pub uninterp spec fn table_entries(table: toml_edit::Table) -> Map<Seq<Seq<char>>, TomlEntry>;

/// The entries of an item: the item itself under no key, and what is below it where it is a table or
/// an inline table.
pub uninterp spec fn item_entries(item: toml_edit::Item) -> Map<Seq<Seq<char>>, TomlEntry>;

/// How one entry of a document is laid out.
pub struct TomlPlace {
    /// The keys that lead to the entry.
    pub path: Seq<Seq<char>>,
    /// A text that stands for how it is written: the white space and the comments around it, the
    /// form of its key and of its value, and the place that is noted for the header of a table.
    pub layout: Seq<char>,
}

/// How a document is laid out: its entries in the order in which it holds them. The document itself,
/// with what precedes its first entry and follows its last, comes under no key.
pub uninterp spec fn toml_layout(document: toml_edit::DocumentMut) -> Seq<TomlPlace>;

/// What a text is read as.
pub struct TomlReading {
    pub entries: Map<Seq<Seq<char>>, TomlEntry>,
    pub layout: Seq<TomlPlace>,
}

/// What parsing the text as a TOML document gives: the entries and the layout of the document, or
/// nothing where the text is refused.
pub uninterp spec fn toml_parsed(text: Seq<char>) -> Option<TomlReading>;

/// The entries that are read from the text, or nothing where it is refused.
pub open spec fn toml_read(text: Seq<char>) -> Option<Map<Seq<Seq<char>>, TomlEntry>> {
    match toml_parsed(text) {
        Some(reading) => Some(reading.entries),
        None => None,
    }
}

/// What a document is written as.
pub uninterp spec fn toml_text(document: toml_edit::DocumentMut) -> Seq<char>;

/// What a document is read as.
pub open spec fn reading(document: toml_edit::DocumentMut) -> TomlReading {
    TomlReading { entries: toml_entries(document), layout: toml_layout(document) }
}

/// No entries at all.
pub open spec fn no_entries() -> Map<Seq<Seq<char>>, TomlEntry> {
    Map::empty()
}

/// Whether the path begins with the keys of the prefix.
pub open spec fn under(path: Seq<Seq<char>>, prefix: Seq<Seq<char>>) -> bool {
    prefix.len() <= path.len() && path.take(prefix.len() as int) == prefix
}

/// Standing neither at nor under the path.
pub open spec fn outside(place: Seq<Seq<char>>) -> spec_fn(TomlPlace) -> bool {
    |entry: TomlPlace| !under(entry.path, place)
}

/// Whether two documents are laid out alike but for what stands at or under the path.
pub open spec fn alike_outside(
    a: Seq<TomlPlace>,
    b: Seq<TomlPlace>,
    place: Seq<Seq<char>>,
) -> bool {
    a.filter(outside(place)) == b.filter(outside(place))
}

/// The layout of what is not touched.
pub open spec fn untouched(
    layout: Seq<TomlPlace>,
    touched: spec_fn(Seq<Seq<char>>) -> bool,
) -> Seq<TomlPlace> {
    layout.filter(|entry: TomlPlace| !touched(entry.path))
}

/// What is kept of a list may be picked in two steps.
proof fn picking_twice<T>(s: Seq<T>, wide: spec_fn(T) -> bool, narrow: spec_fn(T) -> bool)
    requires
        forall|x: T| #[trigger] narrow(x) ==> wide(x),
    ensures
        s.filter(wide).filter(narrow) == s.filter(narrow),
    decreases s.len(),
{
    reveal(Seq::filter);
    if s.len() > 0 {
        picking_twice(s.drop_last(), wide, narrow);
        if wide(s.last()) {
            let picked = s.drop_last().filter(wide);
            assert(picked.push(s.last()).drop_last() =~= picked);
        }
    }
}

/// A change at a path that is touched leaves the layout of what is not touched.
pub proof fn still_untouched(
    before: Seq<TomlPlace>,
    between: Seq<TomlPlace>,
    after: Seq<TomlPlace>,
    touched: spec_fn(Seq<Seq<char>>) -> bool,
    place: Seq<Seq<char>>,
)
    requires
        untouched(between, touched) == untouched(before, touched),
        alike_outside(after, between, place),
        forall|path: Seq<Seq<char>>| #[trigger] under(path, place) ==> touched(path),
    ensures
        untouched(after, touched) == untouched(before, touched),
{
    let narrow = |entry: TomlPlace| !touched(entry.path);
    assert forall|entry: TomlPlace| #[trigger] narrow(entry) implies outside(place)(entry) by {
        if under(entry.path, place) {
            assert(touched(entry.path));
        }
    }
    picking_twice(after, outside(place), narrow);
    picking_twice(between, outside(place), narrow);
}

/// The entries without those at or under the prefix.
pub open spec fn pruned(
    entries: Map<Seq<Seq<char>>, TomlEntry>,
    prefix: Seq<Seq<char>>,
) -> Map<Seq<Seq<char>>, TomlEntry> {
    entries.restrict(Set::new(|path: Seq<Seq<char>>| !under(path, prefix)))
}

/// The entries at or under the prefix, under what remains of their paths.
pub open spec fn subtree(
    entries: Map<Seq<Seq<char>>, TomlEntry>,
    prefix: Seq<Seq<char>>,
) -> Map<Seq<Seq<char>>, TomlEntry> {
    Map::new(
        |path: Seq<Seq<char>>| entries.contains_key(prefix + path),
        |path: Seq<Seq<char>>| entries[prefix + path],
    )
}

/// The entries with those of `item` in place of whatever stood at or under the prefix.
pub open spec fn grafted(
    entries: Map<Seq<Seq<char>>, TomlEntry>,
    prefix: Seq<Seq<char>>,
    item: Map<Seq<Seq<char>>, TomlEntry>,
) -> Map<Seq<Seq<char>>, TomlEntry> {
    Map::new(
        |path: Seq<Seq<char>>|
            if under(path, prefix) {
                item.contains_key(path.skip(prefix.len() as int))
            } else {
                entries.contains_key(path)
            },
        |path: Seq<Seq<char>>|
            if under(path, prefix) {
                item[path.skip(prefix.len() as int)]
            } else {
                entries[path]
            },
    )
}

/// The entries that are neither tables nor inline tables.
pub open spec fn leaves(entries: Map<Seq<Seq<char>>, TomlEntry>) -> Map<
    Seq<Seq<char>>,
    TomlEntry,
> {
    entries.restrict(
        Set::new(
            |path: Seq<Seq<char>>|
                entries.contains_key(path) && entries[path] != TomlEntry::Table && entries[path]
                    != TomlEntry::Inline,
        ),
    )
}

/// Whether a table stands at the path.
pub open spec fn is_table(entries: Map<Seq<Seq<char>>, TomlEntry>, path: Seq<Seq<char>>) -> bool {
    entries.contains_key(path) && entries[path] == TomlEntry::Table
}

/// Whether an inline table stands at the path.
pub open spec fn is_inline(entries: Map<Seq<Seq<char>>, TomlEntry>, path: Seq<Seq<char>>) -> bool {
    entries.contains_key(path) && entries[path] == TomlEntry::Inline
}

/// Whether no table and no list of tables stands inside an inline table, where none is written.
pub open spec fn tables_stand_free(entries: Map<Seq<Seq<char>>, TomlEntry>) -> bool {
    forall|path: Seq<Seq<char>>, n: int|
        0 <= n < path.len() && entries.contains_key(path) && #[trigger] is_inline(
            entries,
            path.take(n),
        ) ==> !(entries[path] is Table) && !(entries[path] is Tables)
}

/// Whether the entries are ones that a text can be read as.
pub open spec fn plain(entries: Map<Seq<Seq<char>>, TomlEntry>) -> bool {
    !entries.contains_key(seq![]) && tables_stand_free(entries)
}

/// Whether the first entries are what is read from a text that was written for the second: the same
/// values, and a table wherever one with values below it was. Empty tables need not come back.
pub open spec fn read_back(
    back: Map<Seq<Seq<char>>, TomlEntry>,
    entries: Map<Seq<Seq<char>>, TomlEntry>,
) -> bool {
    &&& leaves(back) == leaves(entries)
    &&& forall|path: Seq<Seq<char>>, leaf: Seq<Seq<char>>|
        #[trigger] is_table(entries, path) && under(leaf, path) && #[trigger] leaves(
            entries,
        ).contains_key(leaf) ==> is_table(back, path)
}

/// The string at the path, where there is one.
pub open spec fn text_entry(
    entries: Map<Seq<Seq<char>>, TomlEntry>,
    path: Seq<Seq<char>>,
) -> Option<Seq<char>> {
    if entries.contains_key(path) {
        match entries[path] {
            TomlEntry::Text(text) => Some(text),
            _ => None,
        }
    } else {
        None
    }
}

/// The boolean at the path, where there is one.
pub open spec fn flag_entry(
    entries: Map<Seq<Seq<char>>, TomlEntry>,
    path: Seq<Seq<char>>,
) -> Option<bool> {
    if entries.contains_key(path) {
        match entries[path] {
            TomlEntry::Flag(flag) => Some(flag),
            _ => None,
        }
    } else {
        None
    }
}

/// The entries of a single value.
pub open spec fn single(entry: TomlEntry) -> Map<Seq<Seq<char>>, TomlEntry> {
    no_entries().insert(seq![], entry)
}

/// `toml_edit::DocumentMut::new`: a document without entries.
#[verifier::external_body]
pub(crate) fn new_document() -> (res: toml_edit::DocumentMut)
    ensures
        toml_entries(res) == no_entries(),
{
    toml_edit::DocumentMut::new()
}

/// `toml_edit::DocumentMut::from_str`: `toml_parsed` names what it returns. What it reads never has a
/// table inside an inline table.
#[verifier::external_body]
pub(crate) fn parse(text: &str) -> (res: Result<toml_edit::DocumentMut, toml_edit::TomlError>)
    ensures
        match res {
            Ok(document) => toml_parsed(text@) == Some(reading(document)) && plain(
                toml_entries(document),
            ),
            Err(_) => toml_parsed(text@) is None,
        },
{
    text.parse::<toml_edit::DocumentMut>()
}

/// `toml_edit::DocumentMut` written with `Display`: `toml_text` names the text. Where it can be read as
/// a document, the values of the document are read back from it, and its tables with values below
/// them as tables, also without a leading byte order mark, which the parser ignores. It can be
/// unreadable: a table that takes the place of a value in its key is written with the comment above
/// that value inside its header, and a header can be written before the dotted keys that it has to
/// follow. Which empty tables come back is left unsaid, since implicit ones are not written.
#[verifier::external_body]
pub(crate) fn render(document: &toml_edit::DocumentMut) -> (res: String)
    ensures
        res@ == toml_text(*document),
        plain(toml_entries(*document)) && toml_read(res@) is Some ==> read_back(
            toml_read(res@)->0,
            toml_entries(*document),
        ),
        plain(toml_entries(*document)) && toml_read(
            crate::json_compat::without_bom_char(res@),
        ) is Some ==> read_back(
            toml_read(crate::json_compat::without_bom_char(res@))->0,
            toml_entries(*document),
        ),
{
    document.to_string()
}

/// `toml_edit::DocumentMut::as_table`: the table at the root of the document.
#[verifier::external_body]
pub(crate) fn root(document: &toml_edit::DocumentMut) -> (res: &toml_edit::Table)
    ensures
        table_entries(*res) == toml_entries(*document),
{
    document.as_table()
}

/// `toml_edit::Table::get`: the item under the key, where the table has one.
#[verifier::external_body]
pub(crate) fn get<'a>(table: &'a toml_edit::Table, key: &str) -> (res: Option<&'a toml_edit::Item>)
    ensures
        match res {
            Some(item) => table_entries(*table).contains_key(seq![key@]) && item_entries(*item)
                == subtree(table_entries(*table), seq![key@]),
            None => forall|path: Seq<Seq<char>>|
                under(path, seq![key@]) ==> !#[trigger] table_entries(*table).contains_key(path),
        },
{
    table.get(key)
}

/// `toml_edit::Item::as_table`: the table that the item is, where it is one and no inline one.
#[verifier::external_body]
pub(crate) fn as_table(item: &toml_edit::Item) -> (res: Option<&toml_edit::Table>)
    ensures
        match res {
            Some(table) => is_table(item_entries(*item), seq![]) && table_entries(*table)
                == item_entries(*item).remove(seq![]),
            None => !is_table(item_entries(*item), seq![]),
        },
{
    item.as_table()
}

/// `toml_edit::Item::get` with a key: the item under the key, where the item is a table or an inline
/// table that has one. Nothing else has entries below it.
#[verifier::external_body]
pub(crate) fn member<'a>(item: &'a toml_edit::Item, key: &str) -> (res: Option<&'a toml_edit::Item>)
    ensures
        match res {
            Some(found) => item_entries(*item).contains_key(seq![key@]) && item_entries(*found)
                == subtree(item_entries(*item), seq![key@]),
            None => forall|path: Seq<Seq<char>>|
                under(path, seq![key@]) ==> !#[trigger] item_entries(*item).contains_key(path),
        },
{
    item.get(key)
}

/// `toml_edit::Item::into_table` on a copy of the item: a table with what is below the item, where it
/// is a table or an inline table.
#[verifier::external_body]
pub(crate) fn to_table(item: &toml_edit::Item) -> (res: Option<toml_edit::Item>)
    ensures
        match res {
            Some(table) => (is_table(item_entries(*item), seq![]) || is_inline(
                item_entries(*item),
                seq![],
            )) && item_entries(table) == item_entries(*item).insert(seq![], TomlEntry::Table),
            None => !is_table(item_entries(*item), seq![]) && !is_inline(
                item_entries(*item),
                seq![],
            ),
        },
{
    item.clone().into_table().ok().map(toml_edit::Item::Table)
}

/// `toml_edit::Item::as_str`: the string that the item is, where it is one.
#[verifier::external_body]
pub(crate) fn as_text(item: &toml_edit::Item) -> (res: Option<String>)
    ensures
        match res {
            Some(text) => text_entry(item_entries(*item), seq![]) == Some(text@),
            None => text_entry(item_entries(*item), seq![]) is None,
        },
{
    item.as_str().map(|text: &str| text.to_string())
}

/// `toml_edit::Item::as_bool`: the boolean that the item is, where it is one.
#[verifier::external_body]
pub(crate) fn as_flag(item: &toml_edit::Item) -> (res: Option<bool>)
    ensures
        res == flag_entry(item_entries(*item), seq![]),
{
    item.as_bool()
}

/// `toml_edit::Item::clone`: an item with the same entries.
#[verifier::external_body]
pub(crate) fn copy_item(item: &toml_edit::Item) -> (res: toml_edit::Item)
    ensures
        item_entries(res) == item_entries(*item),
{
    item.clone()
}

/// `toml_edit::value` of a string: an item that is this string.
#[verifier::external_body]
pub(crate) fn text_item(text: &str) -> (res: toml_edit::Item)
    ensures
        item_entries(res) == single(TomlEntry::Text(text@)),
{
    toml_edit::value(text)
}

/// `toml_edit::value` of a boolean: an item that is this boolean.
#[verifier::external_body]
pub(crate) fn flag_item(flag: bool) -> (res: toml_edit::Item)
    ensures
        item_entries(res) == single(TomlEntry::Flag(flag)),
{
    toml_edit::value(flag)
}

/// `toml_edit::Table::new` as an item: a table without entries.
#[verifier::external_body]
pub(crate) fn table_item() -> (res: toml_edit::Item)
    ensures
        item_entries(res) == single(TomlEntry::Table),
{
    toml_edit::Item::Table(toml_edit::Table::new())
}

/// `toml_edit::DocumentMut::index_mut` with one key, assigned to: the item takes the place of what
/// stood under the key. Everything else stays where and as it is.
#[verifier::external_body]
pub(crate) fn set(document: &mut toml_edit::DocumentMut, key: &str, item: toml_edit::Item)
    ensures
        toml_entries(*final(document)) == grafted(
            toml_entries(*old(document)),
            seq![key@],
            item_entries(item),
        ),
        alike_outside(
            toml_layout(*final(document)),
            toml_layout(*old(document)),
            seq![key@],
        ),
{
    document[key] = item;
}

/// `toml_edit::Item::index_mut` below a table of the document, assigned to: the item takes the
/// place of what stood under the key of that table. Everything else stays where and as it is. On what
/// is neither a table nor an inline table the call panics.
#[verifier::external_body]
pub(crate) fn set_in(
    document: &mut toml_edit::DocumentMut,
    table: &str,
    key: &str,
    item: toml_edit::Item,
)
    requires
        is_table(toml_entries(*old(document)), seq![table@]),
    ensures
        toml_entries(*final(document)) == grafted(
            toml_entries(*old(document)),
            seq![table@, key@],
            item_entries(item),
        ),
        alike_outside(
            toml_layout(*final(document)),
            toml_layout(*old(document)),
            seq![table@, key@],
        ),
{
    document[table][key] = item;
}

/// `toml_edit::Item::index_mut` two tables down, assigned to: the item takes the place of what
/// stood under the key of the inner table. Everything else stays where and as it is.
#[verifier::external_body]
pub(crate) fn set_below(
    document: &mut toml_edit::DocumentMut,
    outer: &str,
    inner: &str,
    key: &str,
    item: toml_edit::Item,
)
    requires
        is_table(toml_entries(*old(document)), seq![outer@]),
        is_table(toml_entries(*old(document)), seq![outer@, inner@]),
    ensures
        toml_entries(*final(document)) == grafted(
            toml_entries(*old(document)),
            seq![outer@, inner@, key@],
            item_entries(item),
        ),
        alike_outside(
            toml_layout(*final(document)),
            toml_layout(*old(document)),
            seq![outer@, inner@, key@],
        ),
{
    document[outer][inner][key] = item;
}

/// `toml_edit::Table::remove` on the root of the document: nothing is left at or under the key, and
/// everything else stays where and as it is.
#[verifier::external_body]
pub(crate) fn remove(document: &mut toml_edit::DocumentMut, key: &str)
    ensures
        toml_entries(*final(document)) == pruned(toml_entries(*old(document)), seq![key@]),
        alike_outside(
            toml_layout(*final(document)),
            toml_layout(*old(document)),
            seq![key@],
        ),
{
    document.as_table_mut().remove(key);
}

/// `toml_edit::Table::remove` on a table of the document: nothing is left at or under the key of
/// that table, and everything else stays where and as it is.
#[verifier::external_body]
pub(crate) fn remove_in(document: &mut toml_edit::DocumentMut, table: &str, key: &str)
    requires
        is_table(toml_entries(*old(document)), seq![table@]),
    ensures
        toml_entries(*final(document)) == pruned(toml_entries(*old(document)), seq![table@, key@]),
        alike_outside(
            toml_layout(*final(document)),
            toml_layout(*old(document)),
            seq![table@, key@],
        ),
{
    document[table].as_table_mut().map(|found: &mut toml_edit::Table| found.remove(key));
}

/// A document without entries is one that a text can be read as.
pub proof fn nothing_is_plain()
    ensures
        plain(no_entries()),
{
}

/// What is put into entries where no inline table is above it leaves the tables free.
pub proof fn grafted_stand_free(
    entries: Map<Seq<Seq<char>>, TomlEntry>,
    prefix: Seq<Seq<char>>,
    item: Map<Seq<Seq<char>>, TomlEntry>,
)
    requires
        tables_stand_free(entries),
        tables_stand_free(item),
        forall|n: int|
            0 <= n < prefix.len() ==> !#[trigger] is_inline(entries, prefix.take(n)),
    ensures
        tables_stand_free(grafted(entries, prefix, item)),
{
    let g = grafted(entries, prefix, item);
    let len = prefix.len() as int;
    assert forall|path: Seq<Seq<char>>, n: int|
        0 <= n < path.len() && g.contains_key(path) && #[trigger] is_inline(
            g,
            path.take(n),
        ) implies !(g[path] is Table) && !(g[path] is Tables) by {
        let start = path.take(n);
        if under(start, prefix) {
            assert(path.take(len) =~= start.take(len));
            assert(under(path, prefix));
            let rest = path.skip(len);
            assert(start.skip(len) =~= rest.take(n - len));
            assert(is_inline(item, rest.take(n - len)));
        } else if under(path, prefix) {
            assert(n < len) by {
                if n >= len {
                    assert(start.take(len) =~= path.take(len));
                }
            }
            assert(start =~= prefix.take(n)) by {
                assert(path.take(len).take(n) =~= path.take(n));
            }
            assert(is_inline(entries, prefix.take(n)));
        } else {
            assert(is_inline(entries, path.take(n)));
        }
    }
}

/// Taking entries away leaves the tables free.
pub proof fn pruned_stand_free(entries: Map<Seq<Seq<char>>, TomlEntry>, prefix: Seq<Seq<char>>)
    requires
        tables_stand_free(entries),
    ensures
        tables_stand_free(pruned(entries, prefix)),
{
    let g = pruned(entries, prefix);
    assert forall|path: Seq<Seq<char>>, n: int|
        0 <= n < path.len() && g.contains_key(path) && #[trigger] is_inline(
            g,
            path.take(n),
        ) implies !(g[path] is Table) && !(g[path] is Tables) by {
        assert(is_inline(entries, path.take(n)));
    }
}

/// Below a path the tables are free too.
pub proof fn subtree_stands_free(entries: Map<Seq<Seq<char>>, TomlEntry>, prefix: Seq<Seq<char>>)
    requires
        tables_stand_free(entries),
    ensures
        tables_stand_free(subtree(entries, prefix)),
{
    let g = subtree(entries, prefix);
    assert forall|path: Seq<Seq<char>>, n: int|
        0 <= n < path.len() && g.contains_key(path) && #[trigger] is_inline(
            g,
            path.take(n),
        ) implies !(g[path] is Table) && !(g[path] is Tables) by {
        let whole = prefix + path;
        assert(whole.take(prefix.len() + n) =~= prefix + path.take(n));
        assert(is_inline(entries, whole.take(prefix.len() + n)));
    }
}

/// Entries whose first entry is a table instead leave the tables below it free.
pub proof fn opened_stands_free(item: Map<Seq<Seq<char>>, TomlEntry>)
    requires
        tables_stand_free(item),
    ensures
        tables_stand_free(item.insert(seq![], TomlEntry::Table)),
{
    let g = item.insert(seq![], TomlEntry::Table);
    assert forall|path: Seq<Seq<char>>, n: int|
        0 <= n < path.len() && g.contains_key(path) && #[trigger] is_inline(
            g,
            path.take(n),
        ) implies !(g[path] is Table) && !(g[path] is Tables) by {
        assert(is_inline(item, path.take(n)));
    }
}

/// Taking away what stood at a path before something is put there makes no difference.
pub proof fn pruning_first_changes_nothing(
    entries: Map<Seq<Seq<char>>, TomlEntry>,
    prefix: Seq<Seq<char>>,
    item: Map<Seq<Seq<char>>, TomlEntry>,
)
    ensures
        grafted(pruned(entries, prefix), prefix, item) == grafted(entries, prefix, item),
{
    assert(grafted(pruned(entries, prefix), prefix, item) =~= grafted(entries, prefix, item));
}

/// Putting what is at and below a path there again, as a table, makes it a table and changes nothing
/// else.
pub proof fn opening_in_place(entries: Map<Seq<Seq<char>>, TomlEntry>, prefix: Seq<Seq<char>>)
    requires
        entries.contains_key(prefix),
    ensures
        grafted(entries, prefix, subtree(entries, prefix).insert(seq![], TomlEntry::Table))
            == entries.insert(prefix, TomlEntry::Table),
{
    let len = prefix.len() as int;
    let item = subtree(entries, prefix).insert(seq![], TomlEntry::Table);
    let a = grafted(entries, prefix, item);
    let b = entries.insert(prefix, TomlEntry::Table);
    assert forall|path: Seq<Seq<char>>| #[trigger] a.contains_key(path) == b.contains_key(path) && (
    b.contains_key(path) ==> a[path] == b[path]) by {
        assert(prefix.take(len) =~= prefix);
        assert(prefix.skip(len) =~= seq![]);
        if under(path, prefix) {
            let rest = path.skip(len);
            assert(prefix + rest =~= path) by {
                assert(path.take(len) + path.skip(len) =~= path);
            }
            if rest =~= seq![] {
                assert(path =~= prefix);
            }
        } else {
            assert(path != prefix);
        }
    }
    assert(a =~= b);
}

} // verus!

//! The settings of the display of a render, made ready: its pictures and fonts lie in files, and the
//! settings tell their paths.
use crate::assets;
use crate::assets::hud_has_assets;
use crate::json;
use crate::json::{find_field, remove_field, set_field, Json, JsonView};
use crate::text;
use vstd::prelude::*;

verus! {

/// A list of the settings.
#[derive(Clone, Copy, PartialEq, Eq, Structural)]
pub enum HudList {
    Assets,
    Fonts,
}

impl HudList {
    /// The field that holds the list.
    pub open spec fn name(self) -> Seq<char> {
        match self {
            HudList::Assets => "assets"@,
            HudList::Fonts => "fonts"@,
        }
    }

    /// The field that holds the list.
    pub fn key(self) -> (r: &'static str)
        ensures
            r@ == self.name(),
    {
        match self {
            HudList::Assets => "assets",
            HudList::Fonts => "fonts",
        }
    }
}

/// A field of a font that tells a path.
#[derive(Clone, Copy, PartialEq, Eq, Structural)]
pub enum FontKey {
    Usual,
    Normal,
    Bold,
}

impl FontKey {
    /// The field with the path.
    pub open spec fn path_name(self) -> Seq<char> {
        match self {
            FontKey::Usual => "path"@,
            FontKey::Normal => "normalPath"@,
            FontKey::Bold => "boldPath"@,
        }
    }

    /// The field with the path.
    pub fn path_key(self) -> (r: &'static str)
        ensures
            r@ == self.path_name(),
    {
        match self {
            FontKey::Usual => "path",
            FontKey::Normal => "normalPath",
            FontKey::Bold => "boldPath",
        }
    }
}

// ---------------------------------------------------------------------------------------------
// What is to be made ready
// ---------------------------------------------------------------------------------------------

/// One thing that is made ready: a picture, or a font in one of its fields, by their places.
#[derive(Clone, Copy, PartialEq, Eq, Structural)]
pub enum HudStep {
    Asset(usize),
    Font(usize, FontKey),
}

/// The items of a list of the settings.
pub open spec fn list_of(config: JsonView, list: HudList) -> Option<Seq<JsonView>> {
    match config.field(list.name()) {
        Some(JsonView::List(items)) => Some(items),
        _ => None,
    }
}

/// The steps for the first pictures of a list. What is no record is left as it is.
pub open spec fn asset_steps(items: Seq<JsonView>, n: nat) -> Seq<HudStep>
    decreases n,
{
    if n == 0 {
        Seq::empty()
    } else {
        let before = asset_steps(items, (n - 1) as nat);
        if items[n - 1] is Record {
            before.push(HudStep::Asset((n - 1) as usize))
        } else {
            before
        }
    }
}

/// The steps for the first fonts of a list.
pub open spec fn font_steps(items: Seq<JsonView>, n: nat) -> Seq<HudStep>
    decreases n,
{
    if n == 0 {
        Seq::empty()
    } else {
        let before = font_steps(items, (n - 1) as nat);
        let i = (n - 1) as usize;
        if items[n - 1] is Record {
            before.push(HudStep::Font(i, FontKey::Usual)).push(
                HudStep::Font(i, FontKey::Normal),
            ).push(HudStep::Font(i, FontKey::Bold))
        } else {
            before
        }
    }
}

/// All steps: first the pictures, then the fonts.
pub open spec fn hud_plan(config: JsonView) -> Seq<HudStep> {
    if assets::has_assets(config) {
        (match list_of(config, HudList::Assets) {
            Some(items) => asset_steps(items, items.len()),
            None => Seq::empty(),
        }) + (match list_of(config, HudList::Fonts) {
            Some(items) => font_steps(items, items.len()),
            None => Seq::empty(),
        })
    } else {
        Seq::empty()
    }
}

/// The items of a list of the settings.
pub fn hud_list(config: &Json, list: HudList) -> (r: Option<&Vec<Json>>)
    ensures
        match r {
            Some(items) => list_of(config@, list) == Some(json::items_tree(items@)),
            None => list_of(config@, list) is None,
        },
{
    match config.get(list.key()) {
        Some(v) => match v {
            Json::List(items) => {
                proof {
                    json::list_says(*items);
                }
                Some(items)
            },
            _ => None,
        },
        None => None,
    }
}

fn is_record(j: &Json) -> (r: bool)
    ensures
        r == (j@ is Record),
{
    match j {
        Json::Record(_) => true,
        _ => false,
    }
}

/// All that has to be made ready, in its order.
pub fn hud_steps(config: &Json) -> (r: Vec<HudStep>)
    ensures
        r@ == hud_plan(config@),
{
    let mut steps: Vec<HudStep> = Vec::new();
    if !hud_has_assets(config) {
        return steps;
    }
    let ghost mut first: Seq<HudStep> = Seq::empty();
    if let Some(items) = hud_list(config, HudList::Assets) {
        let ghost all = json::items_tree(items@);
        let mut i: usize = 0;
        while i < items.len()
            invariant
                i <= items@.len(),
                all == json::items_tree(items@),
                steps@ == asset_steps(all, i as nat),
            decreases items@.len() - i,
        {
            assert(all[i as int] == items@[i as int]@);
            if is_record(&items[i]) {
                steps.push(HudStep::Asset(i));
            }
            i = i + 1;
        }
        proof {
            first = steps@;
        }
    }
    assert(steps@ == first);
    if let Some(items) = hud_list(config, HudList::Fonts) {
        let ghost all = json::items_tree(items@);
        let mut i: usize = 0;
        assert(steps@ =~= first + font_steps(all, 0));
        while i < items.len()
            invariant
                i <= items@.len(),
                all == json::items_tree(items@),
                steps@ == first + font_steps(all, i as nat),
            decreases items@.len() - i,
        {
            assert(all[i as int] == items@[i as int]@);
            if is_record(&items[i]) {
                steps.push(HudStep::Font(i, FontKey::Usual));
                steps.push(HudStep::Font(i, FontKey::Normal));
                steps.push(HudStep::Font(i, FontKey::Bold));
            }
            i = i + 1;
            assert(steps@ =~= first + font_steps(all, i as nat));
        }
    }
    assert(steps@ =~= hud_plan(config@));
    steps
}

// ---------------------------------------------------------------------------------------------
// Telling the paths
// ---------------------------------------------------------------------------------------------

/// What is told about one item: the path of its file, and the field that goes out, if one does.
pub struct HudEdit {
    pub list: HudList,
    pub index: usize,
    pub path_key: &'static str,
    pub path: String,
    pub drop_key: Option<&'static str>,
}

/// What is told about a picture. The address of one that stood in it goes out.
pub fn asset_edit(index: usize, path: String, drop_url: bool) -> (r: HudEdit)
    ensures
        r.list == HudList::Assets,
        r.index == index,
        r.path_key@ == "path"@,
        r.path@ == path@,
        text::opt_str(r.drop_key) == if drop_url {
            Some("url"@)
        } else {
            None
        },
{
    HudEdit {
        list: HudList::Assets,
        index,
        path_key: "path",
        path,
        drop_key: if drop_url {
            Some("url")
        } else {
            None
        },
    }
}

/// What is told about a font. The address that belongs to the path goes out.
pub fn font_edit(index: usize, key: FontKey, path: String) -> (r: HudEdit)
    ensures
        r.list == HudList::Fonts,
        r.index == index,
        r.path_key@ == key.path_name(),
        r.path@ == path@,
        text::opt_str(r.drop_key) == assets::url_key(key.path_name()),
{
    HudEdit {
        list: HudList::Fonts,
        index,
        path_key: key.path_key(),
        path,
        drop_key: assets::hud_font_url_key(key.path_key()),
    }
}

/// The fields of an item once its path is told.
pub open spec fn edited_fields(
    fields: Seq<(Seq<char>, JsonView)>,
    path_key: Seq<char>,
    path: Seq<char>,
    drop_key: Option<Seq<char>>,
) -> Seq<(Seq<char>, JsonView)> {
    let told = json::with_field(fields, path_key, JsonView::Text(path));
    match drop_key {
        Some(k) => json::without_field(told, k),
        None => told,
    }
}

/// An item once its path is told.
pub open spec fn edited_item(item: JsonView, e: HudEdit) -> JsonView {
    match item {
        JsonView::Record(fields) => JsonView::Record(
            edited_fields(fields, e.path_key@, e.path@, text::opt_str(e.drop_key)),
        ),
        _ => item,
    }
}

/// The items of a list once the path of one of them is told.
pub open spec fn edited_items(items: Seq<JsonView>, e: HudEdit) -> Seq<JsonView> {
    if e.index < items.len() {
        items.update(e.index as int, edited_item(items[e.index as int], e))
    } else {
        items
    }
}

/// A list once the path of one of its items is told.
pub open spec fn edited_list(list: JsonView, e: HudEdit) -> JsonView {
    match list {
        JsonView::List(items) => JsonView::List(edited_items(items, e)),
        _ => list,
    }
}

/// The settings once the path of an item is told.
pub open spec fn edited(config: JsonView, e: HudEdit) -> JsonView {
    match config {
        JsonView::Record(fields) => match json::place(fields, e.list.name()) {
            Some(k) => JsonView::Record(
                fields.update(k, (fields[k].0, edited_list(fields[k].1, e))),
            ),
            None => config,
        },
        _ => config,
    }
}

fn edit_item(item: &mut Json, e: &HudEdit)
    ensures
        final(item)@ == edited_item(old(item)@, *e),
{
    let ghost before = *item;
    match item {
        Json::Record(fields) => {
            proof {
                json::record_says(*fields);
            }
            set_field(fields, e.path_key, Json::Text(e.path.clone()));
            if let Some(k) = e.drop_key {
                remove_field(fields, k);
            }
            proof {
                json::record_says(*fields);
            }
        },
        _ => {},
    }
}

fn edit_list(list: &mut Json, e: &HudEdit)
    ensures
        final(list)@ == edited_list(old(list)@, *e),
{
    match list {
        Json::List(items) => {
            let ghost before = items@;
            proof {
                json::list_says(*items);
            }
            if e.index < items.len() {
                edit_item(&mut items[e.index], e);
                assert(json::items_tree(items@) =~= edited_items(json::items_tree(before), *e));
            }
            proof {
                json::list_says(*items);
            }
        },
        _ => {},
    }
}

/// Tells the path of an item.
pub fn prepare_hud_config_json(config: &mut Json, e: &HudEdit)
    ensures
        final(config)@ == edited(old(config)@, *e),
{
    match config {
        Json::Record(fields) => {
            let ghost before = fields@;
            proof {
                json::record_says(*fields);
                json::place_is_lookup(json::fields_tree(before), e.list.name());
            }
            if let Some(k) = find_field(fields, e.list.key()) {
                edit_list(&mut fields[k].1, e);
                assert(json::fields_tree(fields@) =~= json::fields_tree(before).update(
                    k as int,
                    (
                        json::fields_tree(before)[k as int].0,
                        edited_list(json::fields_tree(before)[k as int].1, *e),
                    ),
                ));
            }
            proof {
                json::record_says(*fields);
            }
        },
        _ => {},
    }
}

/// An item that is made ready tells the path of its file, and every other item of its list is as it was.
pub proof fn prepared_items_tell_their_file(items: Seq<JsonView>, e: HudEdit, j: int)
    requires
        e.index < items.len(),
        items[e.index as int] is Record,
        text::opt_str(e.drop_key) != Some(e.path_key@),
        0 <= j < items.len(),
    ensures
        edited_items(items, e).len() == items.len(),
        edited_items(items, e)[e.index as int].text_field(e.path_key@) == Some(e.path@),
        j != e.index ==> edited_items(items, e)[j] == items[j],
{
    let fields = items[e.index as int]->Record_0;
    let told = json::with_field(fields, e.path_key@, JsonView::Text(e.path@));
    // Any other name serves to read back the one that was written.
    let other = e.path_key@.push('/');
    assert(other.len() != e.path_key@.len());
    json::written_fields_are_read_back(fields, e.path_key@, JsonView::Text(e.path@), other);
    if let Some(k) = text::opt_str(e.drop_key) {
        json::dropped_fields_leave_others(told, k, e.path_key@);
    }
}

/// Settings of another version have nothing that is made ready.
pub proof fn other_versions_stay(config: JsonView)
    requires
        !assets::has_assets(config),
    ensures
        hud_plan(config).len() == 0,
{
}

/// Every asset and every version of every font that is listed as a record is prepared; an asset that is none, or is
/// not listed, is left alone.
pub proof fn every_asset_is_prepared(items: Seq<JsonView>, n: nat, i: int)
    requires
        n <= items.len(),
        n <= usize::MAX,
    ensures
        0 <= i < n && items[i] is Record ==> asset_steps(items, n).contains(HudStep::Asset(i as usize)),
        0 <= i < n && items[i] is Record ==> font_steps(items, n).contains(
            HudStep::Font(i as usize, FontKey::Usual),
        ) && font_steps(items, n).contains(HudStep::Font(i as usize, FontKey::Normal)) && font_steps(
            items,
            n,
        ).contains(HudStep::Font(i as usize, FontKey::Bold)),
        0 <= i <= usize::MAX && (i >= n || !(items[i] is Record)) ==> !asset_steps(items, n).contains(
            HudStep::Asset(i as usize),
        ),
    decreases n,
{
    if n > 0 {
        let m = (n - 1) as nat;
        every_asset_is_prepared(items, m, i);
        let a = asset_steps(items, m);
        let b = asset_steps(items, n);
        let f = font_steps(items, m);
        let g = font_steps(items, n);
        assert forall|s: HudStep| a.contains(s) implies #[trigger] b.contains(s) by {
            let k = choose|k: int| 0 <= k < a.len() && a[k] == s;
            assert(b[k] == s);
        }
        assert forall|s: HudStep| f.contains(s) implies #[trigger] g.contains(s) by {
            let k = choose|k: int| 0 <= k < f.len() && f[k] == s;
            assert(g[k] == s);
        }
        if items[m as int] is Record {
            assert(b.last() == HudStep::Asset(m as usize));
            assert(b.contains(b.last()));
            let l = g.len() as int;
            assert(g[l - 3] == HudStep::Font(m as usize, FontKey::Usual));
            assert(g[l - 2] == HudStep::Font(m as usize, FontKey::Normal));
            assert(g[l - 1] == HudStep::Font(m as usize, FontKey::Bold));
            assert(g.contains(g[l - 3]) && g.contains(g[l - 2]) && g.contains(g[l - 1]));
            if 0 <= i <= usize::MAX && i != m && b.contains(HudStep::Asset(i as usize)) {
                let k = choose|k: int| 0 <= k < b.len() && b[k] == HudStep::Asset(i as usize);
                assert(k < a.len());
                assert(a[k] == b[k]);
            }
        }
    }
}

} // verus!

//! The entity cache: structured portal records, their flattened editable
//! view, the per-entity image sub-cache, the cursor over the cached keys, and
//! the two-realm cache that merges freshly streamed records.
use crate::err_tools::ErrorX;
use crate::images::Imager;
use crate::modal::ModalMachine;
use crate::ordmap::OrdMap;
use crate::text::{
    char_digit, char_digit_exec, i64_to_string, int_chars, lemma_parse_int_chars,
    lemma_strip_quoted, not_quote, parse_i32, quote_wrap, quoted, spec_parse_i32, strip_quotes,
    strip_quotes_spec,
};
use crate::Realm;
use crate::thread_tools::{same_cell_modulo_poll, Communicator, SPromise, SPromiseSender};
use vstd::prelude::*;

verus! {

/// One realm's half of a portal record: the structured, authoritative form.
pub struct PortalText {
    pub xcord: i32,
    pub ycord: i32,
    pub zcord: i32,
    pub locale: String,
    pub owner: String,
    pub notes: String,
    pub true_name: String,
}

impl Default for PortalText {
    fn default() -> (r: PortalText)
        ensures
            r.xcord == 0 && r.ycord == 0 && r.zcord == 0,
            r.locale@ == Seq::<char>::empty(),
            r.owner@ == Seq::<char>::empty(),
            r.notes@ == Seq::<char>::empty(),
            r.true_name@ == Seq::<char>::empty(),
    {
        PortalText {
            xcord: 0,
            ycord: 0,
            zcord: 0,
            locale: String::new(),
            owner: String::new(),
            notes: String::new(),
            true_name: String::new(),
        }
    }
}

/// The value a flattened view holds under a key, as a character sequence.
pub open spec fn map_val(m: OrdMap<String>, k: Seq<char>) -> Option<Seq<char>> {
    match m.spec_get(k) {
        Some(s) => Some(s@),
        None => None,
    }
}

/// What the flattened view of a record holds: the three coordinates rendered
/// in decimal, the four strings wrapped in quotes.
pub open spec fn flat_view_of(m: OrdMap<String>, pt: PortalText) -> bool {
    &&& map_val(m, "Xcord"@) == Some(int_chars(pt.xcord as int))
    &&& map_val(m, "Ycord"@) == Some(int_chars(pt.ycord as int))
    &&& map_val(m, "Zcord"@) == Some(int_chars(pt.zcord as int))
    &&& map_val(m, "Locale"@) == Some(quoted(pt.locale@))
    &&& map_val(m, "Owner"@) == Some(quoted(pt.owner@))
    &&& map_val(m, "Notes"@) == Some(quoted(pt.notes@))
    &&& map_val(m, "True_Name"@) == Some(quoted(pt.true_name@))
}

/// Whether a flattened view parses back into a structured record: every
/// required field present, the coordinates readable as 32-bit integers.
pub open spec fn flat_parses(m: OrdMap<String>) -> bool {
    &&& map_val(m, "Xcord"@) is Some && spec_parse_i32(map_val(m, "Xcord"@).unwrap()) is Some
    &&& map_val(m, "Ycord"@) is Some && spec_parse_i32(map_val(m, "Ycord"@).unwrap()) is Some
    &&& map_val(m, "Zcord"@) is Some && spec_parse_i32(map_val(m, "Zcord"@).unwrap()) is Some
    &&& map_val(m, "Locale"@) is Some
    &&& map_val(m, "Owner"@) is Some
    &&& map_val(m, "Notes"@) is Some
    &&& map_val(m, "True_Name"@) is Some
}

/// How a record read back from a flattened view relates to that view: the
/// coordinates are parsed, the strings stripped of quote artifacts.
pub open spec fn unflattened(m: OrdMap<String>, pt: PortalText) -> bool {
    &&& Some(pt.xcord) == spec_parse_i32(map_val(m, "Xcord"@).unwrap())
    &&& Some(pt.ycord) == spec_parse_i32(map_val(m, "Ycord"@).unwrap())
    &&& Some(pt.zcord) == spec_parse_i32(map_val(m, "Zcord"@).unwrap())
    &&& pt.locale@ == strip_quotes_spec(map_val(m, "Locale"@).unwrap())
    &&& pt.owner@ == strip_quotes_spec(map_val(m, "Owner"@).unwrap())
    &&& pt.notes@ == strip_quotes_spec(map_val(m, "Notes"@).unwrap())
    &&& pt.true_name@ == strip_quotes_spec(map_val(m, "True_Name"@).unwrap())
}

/// The seven field keys all start with different letters, so they name seven
/// different entries of the flattened view.
proof fn lemma_flat_keys_distinct()
    ensures
        "Xcord"@[0] == 'X',
        "Ycord"@[0] == 'Y',
        "Zcord"@[0] == 'Z',
        "Locale"@[0] == 'L',
        "Owner"@[0] == 'O',
        "Notes"@[0] == 'N',
        "True_Name"@[0] == 'T',
        "Xcord"@.len() == 5,
        "Ycord"@.len() == 5,
        "Zcord"@.len() == 5,
        "Locale"@.len() == 6,
        "Owner"@.len() == 5,
        "Notes"@.len() == 5,
        "True_Name"@.len() == 9,
{
    reveal_strlit("Xcord");
    reveal_strlit("Ycord");
    reveal_strlit("Zcord");
    reveal_strlit("Locale");
    reveal_strlit("Owner");
    reveal_strlit("Notes");
    reveal_strlit("True_Name");
}

impl PortalText {
    /// Flattens the structured record into the editable key-to-text view.
    pub fn to_btree(&self) -> (r: OrdMap<String>)
        ensures
            r.wf(),
            r.spec_len() == 7,
            flat_view_of(r, *self),
            flat_parses(r) == (spec_parse_i32(int_chars(self.xcord as int)) is Some
                && spec_parse_i32(int_chars(self.ycord as int)) is Some && spec_parse_i32(
                int_chars(self.zcord as int),
            ) is Some),
    {
        proof {
            lemma_flat_keys_distinct();
        }
        let mut r: OrdMap<String> = OrdMap::new();
        r.insert_new("Xcord".to_owned(), i64_to_string(self.xcord as i64));
        r.insert_new("Ycord".to_owned(), i64_to_string(self.ycord as i64));
        r.insert_new("Zcord".to_owned(), i64_to_string(self.zcord as i64));
        r.insert_new("Locale".to_owned(), quote_wrap(self.locale.as_str()));
        r.insert_new("Owner".to_owned(), quote_wrap(self.owner.as_str()));
        r.insert_new("Notes".to_owned(), quote_wrap(self.notes.as_str()));
        r.insert_new("True_Name".to_owned(), quote_wrap(self.true_name.as_str()));
        r
    }

    /// Parses the flattened view back into a structured record. Fails, and
    /// only fails, when a required field is missing or a coordinate does not
    /// read as a 32-bit integer; the view itself is left untouched.
    pub fn from_btree(btree: &OrdMap<String>) -> (r: Result<PortalText, ErrorX>)
        requires
            btree.wf(),
        ensures
            r is Ok <==> flat_parses(*btree),
            r matches Ok(pt) ==> unflattened(*btree, pt),
    {
        let xcord = match Self::coord_field(btree, "Xcord") {
            Ok(v) => v,
            Err(e) => {
                return Err(e);
            },
        };
        let ycord = match Self::coord_field(btree, "Ycord") {
            Ok(v) => v,
            Err(e) => {
                return Err(e);
            },
        };
        let zcord = match Self::coord_field(btree, "Zcord") {
            Ok(v) => v,
            Err(e) => {
                return Err(e);
            },
        };
        let locale = match Self::string_field(btree, "Locale") {
            Ok(v) => v,
            Err(e) => {
                return Err(e);
            },
        };
        let owner = match Self::string_field(btree, "Owner") {
            Ok(v) => v,
            Err(e) => {
                return Err(e);
            },
        };
        let notes = match Self::string_field(btree, "Notes") {
            Ok(v) => v,
            Err(e) => {
                return Err(e);
            },
        };
        let true_name = match Self::string_field(btree, "True_Name") {
            Ok(v) => v,
            Err(e) => {
                return Err(e);
            },
        };
        Ok(PortalText { xcord, ycord, zcord, locale, owner, notes, true_name })
    }

    fn coord_field(btree: &OrdMap<String>, key: &str) -> (r: Result<i32, ErrorX>)
        requires
            btree.wf(),
        ensures
            r is Ok <==> (map_val(*btree, key@) is Some && spec_parse_i32(
                map_val(*btree, key@).unwrap(),
            ) is Some),
            r matches Ok(v) ==> Some(v) == spec_parse_i32(map_val(*btree, key@).unwrap()),
    {
        match btree.get(key) {
            Some(s) => match parse_i32(s.as_str()) {
                Some(v) => Ok(v),
                None => Err(ErrorX::new("a coordinate field does not read as an integer")),
            },
            None => Err(ErrorX::new("a required coordinate field is missing")),
        }
    }

    fn string_field(btree: &OrdMap<String>, key: &str) -> (r: Result<String, ErrorX>)
        requires
            btree.wf(),
        ensures
            r is Ok <==> map_val(*btree, key@) is Some,
            r matches Ok(v) ==> v@ == strip_quotes_spec(map_val(*btree, key@).unwrap()),
    {
        match btree.get(key) {
            Some(s) => Ok(strip_quotes(s.as_str())),
            None => Err(ErrorX::new("a required text field is missing")),
        }
    }
}

/// Round trip: flattening a record for editing and committing the view back
/// unchanged reproduces the record field for field, whenever no string field
/// carries a double quote of its own.
pub proof fn lemma_edit_round_trip(m: OrdMap<String>, pt: PortalText, back: PortalText)
    requires
        flat_view_of(m, pt),
        unflattened(m, back),
        forall|i: int| 0 <= i < pt.locale@.len() ==> not_quote(#[trigger] pt.locale@[i]),
        forall|i: int| 0 <= i < pt.owner@.len() ==> not_quote(#[trigger] pt.owner@[i]),
        forall|i: int| 0 <= i < pt.notes@.len() ==> not_quote(#[trigger] pt.notes@[i]),
        forall|i: int| 0 <= i < pt.true_name@.len() ==> not_quote(#[trigger] pt.true_name@[i]),
    ensures
        back.xcord == pt.xcord,
        back.ycord == pt.ycord,
        back.zcord == pt.zcord,
        back.locale@ == pt.locale@,
        back.owner@ == pt.owner@,
        back.notes@ == pt.notes@,
        back.true_name@ == pt.true_name@,
{
    lemma_parse_int_chars(pt.xcord);
    lemma_parse_int_chars(pt.ycord);
    lemma_parse_int_chars(pt.zcord);
    lemma_strip_quoted(pt.locale@);
    lemma_strip_quoted(pt.owner@);
    lemma_strip_quoted(pt.notes@);
    lemma_strip_quoted(pt.true_name@);
}

/// A flattened view of a record always parses back: committing an unmodified
/// edit view cannot fail.
pub proof fn lemma_flat_view_parses(m: OrdMap<String>, pt: PortalText)
    requires
        flat_view_of(m, pt),
    ensures
        flat_parses(m),
{
    lemma_parse_int_chars(pt.xcord);
    lemma_parse_int_chars(pt.ycord);
    lemma_parse_int_chars(pt.zcord);
}

/// One full portal record as the server sends it: both realms plus identity.
pub struct NetherPortalText {
    pub id: i32,
    pub overworld: PortalText,
    pub nether: PortalText,
    pub username: String,
}

impl Default for NetherPortalText {
    fn default() -> (r: NetherPortalText)
        ensures
            r.id == 0,
            r.username@ == Seq::<char>::empty(),
    {
        NetherPortalText {
            id: 0,
            overworld: Default::default(),
            nether: Default::default(),
            username: String::new(),
        }
    }
}

impl NetherPortalText {
    /// The natural key of the nether half.
    pub fn nether_true_name(&self) -> (r: String)
        ensures
            r@ == self.nether.true_name@,
    {
        self.nether.true_name.clone()
    }

    /// The natural key of the overworld half.
    pub fn ow_true_name(&self) -> (r: String)
        ensures
            r@ == self.overworld.true_name@,
    {
        self.overworld.true_name.clone()
    }

    pub fn build_from(id: i32, overworld: PortalText, nether: PortalText) -> (r: NetherPortalText)
        ensures
            r.id == id,
            r.overworld == overworld,
            r.nether == nether,
            r.username@ == Seq::<char>::empty(),
    {
        NetherPortalText { id, overworld, nether, username: String::new() }
    }
}

/// The navigation cursor: the cached keys in order, and a bounded index.
///
/// Well-formedness is the cursor-bounds invariant: the index never leaves
/// `[0, len)` while there are keys, and sits at 0 when there are none.
pub struct Keys {
    keys: Vec<String>,
    index: usize,
}

impl Keys {
    pub closed spec fn key_view(self) -> Seq<Seq<char>> {
        self.keys@.map_values(|s: String| s@)
    }

    pub closed spec fn spec_index(self) -> int {
        self.index as int
    }

    pub closed spec fn spec_len(self) -> nat {
        self.keys@.len()
    }

    /// The cursor-bounds invariant.
    pub open spec fn wf(self) -> bool {
        if self.spec_len() == 0 {
            self.spec_index() == 0
        } else {
            0 <= self.spec_index() < self.spec_len()
        }
    }

    pub fn default() -> (r: Keys)
        ensures
            r.wf(),
            r.spec_len() == 0,
            r.spec_index() == 0,
    {
        let r = Keys { keys: Vec::new(), index: 0 };
        proof {
            assert(r.key_view() =~= Seq::<Seq<char>>::empty());
        }
        r
    }

    /// Replaces the key list, clamping the index so the bounds invariant
    /// holds of the new list.
    pub fn set_keys(&mut self, keys: Vec<String>)
        ensures
            final(self).wf(),
            final(self).key_view() == keys@.map_values(|s: String| s@),
            final(self).spec_index() == if keys@.len() == 0 {
                0int
            } else if old(self).spec_index() < keys@.len() {
                old(self).spec_index()
            } else {
                keys@.len() - 1
            },
    {
        if keys.len() == 0 {
            self.index = 0;
        } else if self.index >= keys.len() {
            self.index = keys.len() - 1;
        }
        self.keys = keys;
    }

    /// Moves the cursor, clamping an out-of-range position to the last key.
    pub fn set_pos(&mut self, index: usize)
        ensures
            final(self).wf(),
            final(self).key_view() == old(self).key_view(),
            final(self).spec_index() == if old(self).spec_len() == 0 {
                0int
            } else if index < old(self).spec_len() {
                index as int
            } else {
                old(self).spec_len() - 1
            },
    {
        if self.keys.len() == 0 {
            self.index = 0;
        } else if index < self.keys.len() {
            self.index = index;
        } else {
            self.index = self.keys.len() - 1;
        }
    }

    pub fn get_index(&self) -> (r: usize)
        ensures
            r == self.spec_index(),
    {
        self.index
    }

    /// The key under the cursor; `None` exactly when there are no keys.
    pub fn current(&self) -> (r: Option<String>)
        requires
            self.wf(),
        ensures
            match r {
                Some(s) => self.spec_len() > 0 && s@ == self.key_view()[self.spec_index()],
                None => self.spec_len() == 0,
            },
    {
        if self.index < self.keys.len() {
            Some(self.keys[self.index].clone())
        } else {
            None
        }
    }

    /// A mutable borrow of the key under the cursor.
    pub fn current_mut(&mut self) -> (r: Option<&mut String>)
        requires
            old(self).wf(),
        ensures
            match r {
                Some(v) => old(self).spec_len() > 0
                    && (*v)@ == old(self).key_view()[old(self).spec_index()]
                    && final(self).wf()
                    && final(self).spec_index() == old(self).spec_index()
                    && final(self).key_view() == old(self).key_view().update(
                    old(self).spec_index(),
                    (*final(v))@,
                ),
                None => old(self).spec_len() == 0 && *final(self) == *old(self),
            },
    {
        if self.index < self.keys.len() {
            Some(&mut self.keys[self.index])
        } else {
            None
        }
    }

    pub fn len(&self) -> (r: usize)
        ensures
            r == self.spec_len(),
    {
        self.keys.len()
    }
}

/// One cached entity: its origin identifier, the structured record inside a
/// settling cell, the flattened editable view, the per-entity image
/// sub-cache, the image selection, and the cell of a pending image-list
/// request.
pub struct NetherPortal {
    original_id: i32,
    portal_text: SPromise<PortalText>,
    as_btree: OrdMap<String>,
    images: OrdMap<SPromise<Imager>>,
    image_position: String,
    image_list_request: SPromise<Option<String>>,
}

impl NetherPortal {
    pub closed spec fn spec_id(self) -> i32 {
        self.original_id
    }

    pub closed spec fn spec_text(self) -> SPromise<PortalText> {
        self.portal_text
    }

    pub closed spec fn spec_btree(self) -> OrdMap<String> {
        self.as_btree
    }

    pub closed spec fn spec_images(self) -> OrdMap<SPromise<Imager>> {
        self.images
    }

    pub closed spec fn spec_image_pos(self) -> Seq<char> {
        self.image_position@
    }

    pub closed spec fn spec_img_list_req(self) -> SPromise<Option<String>> {
        self.image_list_request
    }

    pub open spec fn wf(self) -> bool {
        self.spec_btree().wf() && self.spec_images().wf()
    }

    /// A fresh entity around one streamed record: empty edit view, empty
    /// image sub-cache, no selection, no pending requests.
    pub fn fresh(original_id: i32, pt: PortalText) -> (r: NetherPortal)
        ensures
            r.wf(),
            r.spec_id() == original_id,
            r.spec_text().spec_value() == pt,
            !r.spec_text().has_promise(),
            !r.spec_text().has_sender(),
            r.spec_btree().spec_len() == 0,
            r.spec_images().spec_len() == 0,
            forall|k: Seq<char>| !r.spec_images().contains_key(k),
            r.spec_image_pos() == Seq::<char>::empty(),
            !r.spec_img_list_req().has_promise(),
    {
        NetherPortal {
            original_id,
            portal_text: SPromise::make_no_promise(pt),
            as_btree: OrdMap::new(),
            images: OrdMap::new(),
            image_position: String::new(),
            image_list_request: SPromise::make_no_promise(None),
        }
    }

    pub fn get_id(&self) -> (r: i32)
        ensures
            r == self.spec_id(),
    {
        self.original_id
    }

    /// Replaces the structured record, leaving everything else alone.
    pub fn add_portal_text(&mut self, pt: PortalText)
        ensures
            final(self).spec_text().spec_value() == pt,
            !final(self).spec_text().has_promise(),
            !final(self).spec_text().has_sender(),
            final(self).spec_id() == old(self).spec_id(),
            final(self).spec_btree() == old(self).spec_btree(),
            final(self).spec_images() == old(self).spec_images(),
            final(self).spec_image_pos() == old(self).spec_image_pos(),
            final(self).spec_img_list_req() == old(self).spec_img_list_req(),
    {
        self.portal_text = SPromise::make_no_promise(pt);
    }

    /// Commits the flattened edit view back into the structured record.
    /// Fails, and only fails, when the view does not parse; a failure leaves
    /// the entity, record included, exactly as it was.
    pub fn set_pt(&mut self) -> (r: Result<(), ErrorX>)
        requires
            old(self).wf(),
        ensures
            final(self).wf(),
            r is Ok <==> flat_parses(old(self).spec_btree()),
            r is Err ==> *final(self) == *old(self),
            r is Ok ==> unflattened(old(self).spec_btree(), final(self).spec_text().spec_value()),
            r is Ok ==> final(self).spec_text().has_promise()
                == old(self).spec_text().has_promise(),
            final(self).spec_id() == old(self).spec_id(),
            final(self).spec_btree() == old(self).spec_btree(),
            final(self).spec_images() == old(self).spec_images(),
            final(self).spec_image_pos() == old(self).spec_image_pos(),
            final(self).spec_img_list_req() == old(self).spec_img_list_req(),
    {
        let pt = match PortalText::from_btree(&self.as_btree) {
            Ok(pt) => pt,
            Err(e) => {
                return Err(e);
            },
        };
        self.portal_text.set_value(pt);
        Ok(())
    }

    /// Materialises the flattened edit view from the structured record,
    /// discarding whatever edits the view held.
    pub fn set_as_btree(&mut self)
        requires
            old(self).wf(),
        ensures
            final(self).wf(),
            final(self).spec_btree().wf(),
            flat_view_of(final(self).spec_btree(), old(self).spec_text().spec_value()),
            final(self).spec_btree().spec_len() == 7,
            final(self).spec_id() == old(self).spec_id(),
            final(self).spec_text() == old(self).spec_text(),
            final(self).spec_images() == old(self).spec_images(),
            final(self).spec_image_pos() == old(self).spec_image_pos(),
            final(self).spec_img_list_req() == old(self).spec_img_list_req(),
    {
        self.as_btree = self.portal_text.ref_value().to_btree();
    }

    pub fn btree_ref(&self) -> (r: &OrdMap<String>)
        ensures
            *r == self.spec_btree(),
    {
        &self.as_btree
    }

    pub fn btree_mut(&mut self) -> (r: &mut OrdMap<String>)
        ensures
            *r == old(self).spec_btree(),
            final(self).spec_btree() == *final(r),
            final(self).spec_id() == old(self).spec_id(),
            final(self).spec_text() == old(self).spec_text(),
            final(self).spec_images() == old(self).spec_images(),
            final(self).spec_image_pos() == old(self).spec_image_pos(),
            final(self).spec_img_list_req() == old(self).spec_img_list_req(),
    {
        &mut self.as_btree
    }

    /// Whether the edit view has never been materialised.
    pub fn is_empty(&self) -> (r: bool)
        ensures
            r == (self.spec_btree().spec_len() == 0),
    {
        self.as_btree.is_empty()
    }

    pub fn image_pos_ref(&self) -> (r: &String)
        ensures
            r@ == self.spec_image_pos(),
    {
        &self.image_position
    }

    pub fn image_pos_mut(&mut self) -> (r: &mut String)
        ensures
            (*r)@ == old(self).spec_image_pos(),
            final(self).spec_image_pos() == (*final(r))@,
            final(self).spec_id() == old(self).spec_id(),
            final(self).spec_text() == old(self).spec_text(),
            final(self).spec_btree() == old(self).spec_btree(),
            final(self).spec_images() == old(self).spec_images(),
            final(self).spec_img_list_req() == old(self).spec_img_list_req(),
    {
        &mut self.image_position
    }

    pub fn images_ref(&self) -> (r: &OrdMap<SPromise<Imager>>)
        ensures
            *r == self.spec_images(),
    {
        &self.images
    }

    pub fn images_mut(&mut self) -> (r: &mut OrdMap<SPromise<Imager>>)
        ensures
            *r == old(self).spec_images(),
            final(self).spec_images() == *final(r),
            final(self).spec_id() == old(self).spec_id(),
            final(self).spec_text() == old(self).spec_text(),
            final(self).spec_btree() == old(self).spec_btree(),
            final(self).spec_image_pos() == old(self).spec_image_pos(),
            final(self).spec_img_list_req() == old(self).spec_img_list_req(),
    {
        &mut self.images
    }

    pub fn img_list_req_ref(&self) -> (r: &SPromise<Option<String>>)
        ensures
            *r == self.spec_img_list_req(),
    {
        &self.image_list_request
    }

    pub fn img_pos_set(&mut self, pos: String)
        ensures
            final(self).spec_image_pos() == pos@,
            final(self).spec_id() == old(self).spec_id(),
            final(self).spec_text() == old(self).spec_text(),
            final(self).spec_btree() == old(self).spec_btree(),
            final(self).spec_images() == old(self).spec_images(),
            final(self).spec_img_list_req() == old(self).spec_img_list_req(),
    {
        self.image_position = pos;
    }

    /// Picks the first image whose cell has settled as the selection, if
    /// none is selected yet, polling each cell on the way. Whether any cell
    /// has settled depends on the background tasks, so the result only says
    /// what was found.
    pub fn init_img_pos(&mut self) -> (r: Option<()>)
        requires
            old(self).wf(),
        ensures
            final(self).wf(),
            final(self).spec_images().key_seq() == old(self).spec_images().key_seq(),
            forall|j: int|
                0 <= j < old(self).spec_images().spec_len() ==> same_cell_modulo_poll(
                    old(self).spec_images().val_seq()[j],
                    #[trigger] final(self).spec_images().val_seq()[j],
                ),
            old(self).spec_image_pos() != Seq::<char>::empty() ==> *final(self) == *old(self)
                && r is None,
            r is None ==> final(self).spec_image_pos() == old(self).spec_image_pos(),
            r is Some ==> old(self).spec_image_pos() == Seq::<char>::empty()
                && final(self).spec_images().contains_key(final(self).spec_image_pos())
                && final(self).spec_images().spec_get(
                final(self).spec_image_pos(),
            ).unwrap().is_settled(),
            final(self).spec_id() == old(self).spec_id(),
            final(self).spec_text() == old(self).spec_text(),
            final(self).spec_btree() == old(self).spec_btree(),
            final(self).spec_img_list_req() == old(self).spec_img_list_req(),
    {
        if !self.image_position.as_str().is_empty() {
            return None;
        }
        let n = self.images.len();
        let mut i: usize = 0;
        proof {
            self.images.lemma_wf_lens();
        }
        while i < n
            invariant
                i <= n,
                n == self.images.spec_len(),
                self.wf(),
                self.images.key_seq() == old(self).spec_images().key_seq(),
                self.images.val_seq().len() == old(self).spec_images().val_seq().len(),
                forall|j: int|
                    0 <= j < i ==> same_cell_modulo_poll(
                        old(self).spec_images().val_seq()[j],
                        #[trigger] self.images.val_seq()[j],
                    ),
                forall|j: int|
                    i <= j < n ==> #[trigger] self.images.val_seq()[j] == old(self).spec_images().val_seq()[j],
                self.image_position == old(self).image_position,
                old(self).spec_image_pos() == Seq::<char>::empty(),
                self.original_id == old(self).original_id,
                self.portal_text == old(self).portal_text,
                self.as_btree == old(self).as_btree,
                self.image_list_request == old(self).image_list_request,
            decreases n - i,
        {
            proof {
                self.images.lemma_wf_lens();
            }
            let ghost pre_map = self.images;
            let dummy = SPromise::make_no_promise(Imager::default());
            let mut cell = self.images.replace_at(i, dummy);
            let found = cell.poll().is_some();
            let ghost pumped = cell;
            let _ = self.images.replace_at(i, cell);
            proof {
                assert(self.images.val_seq() =~= pre_map.val_seq().update(i as int, pumped));
            }
            if found {
                let key = self.images.key_at(i).clone();
                proof {
                    self.images.lemma_key_unique(key@, i as int);
                }
                self.image_position = key;
                return Some(());
            }
            i = i + 1;
        }
        None
    }

    /// Polls the cell under the current selection, so a settlement that has
    /// arrived becomes observable; everything else stays as it is.
    pub fn pump_current(&mut self)
        requires
            old(self).wf(),
        ensures
            final(self).wf(),
            final(self).spec_images().key_seq() == old(self).spec_images().key_seq(),
            forall|j: int|
                0 <= j < old(self).spec_images().spec_len() ==> same_cell_modulo_poll(
                    old(self).spec_images().val_seq()[j],
                    #[trigger] final(self).spec_images().val_seq()[j],
                ),
            final(self).spec_image_pos() == old(self).spec_image_pos(),
            final(self).spec_id() == old(self).spec_id(),
            final(self).spec_text() == old(self).spec_text(),
            final(self).spec_btree() == old(self).spec_btree(),
            final(self).spec_img_list_req() == old(self).spec_img_list_req(),
    {
        proof {
            self.images.lemma_wf_lens();
        }
        let i = match self.images.find(self.image_position.as_str()) {
            Some(i) => i,
            None => {
                return ;
            },
        };
        let ghost pre_map = self.images;
        let dummy = SPromise::make_no_promise(Imager::default());
        let mut cell = self.images.replace_at(i, dummy);
        let _ = cell.poll();
        let ghost pumped = cell;
        let _ = self.images.replace_at(i, cell);
        proof {
            assert(self.images.val_seq() =~= pre_map.val_seq().update(i as int, pumped));
            assert forall|j: int|
                0 <= j < old(self).spec_images().spec_len() implies same_cell_modulo_poll(
                old(self).spec_images().val_seq()[j],
                #[trigger] self.images.val_seq()[j],
            ) by {
                if j != i {
                    assert(self.images.val_seq()[j] == pre_map.val_seq()[j]);
                }
            }
        }
    }

    /// Whether the image sub-cache still awaits its one load of the session:
    /// true exactly while it holds no image at all.
    pub fn needs_load(&self) -> (r: bool)
        ensures
            r == (self.spec_images().spec_len() == 0),
    {
        self.images.is_empty()
    }

    /// Clears the image sub-cache and the selection, forcing the next load.
    pub fn invalidate(&mut self)
        requires
            old(self).wf(),
        ensures
            final(self).wf(),
            final(self).spec_images().spec_len() == 0,
            final(self).spec_image_pos() == Seq::<char>::empty(),
            final(self).spec_id() == old(self).spec_id(),
            final(self).spec_text() == old(self).spec_text(),
            final(self).spec_btree() == old(self).spec_btree(),
            final(self).spec_img_list_req() == old(self).spec_img_list_req(),
    {
        self.images.clear();
        self.image_position = String::new();
    }

    /// The observed image record under the current selection: `Some` exactly
    /// when the selection names a held image whose settlement a poll has
    /// observed, `None` otherwise — a selection outside the map included.
    pub fn current_image(&self) -> (r: Option<&Imager>)
        requires
            self.wf(),
        ensures
            r is Some <==> (self.spec_images().contains_key(self.spec_image_pos())
                && self.spec_images().spec_get(self.spec_image_pos()).unwrap().is_settled()),
            r matches Some(img) ==> *img == self.spec_images().spec_get(
                self.spec_image_pos(),
            ).unwrap().spec_settled(),
    {
        match self.images.get(self.image_position.as_str()) {
            Some(cell) => cell.ready_ref(),
            None => None,
        }
    }
}

/// A select-one machine over paired realm keys: each option is rendered with
/// its position as the first character, and resolving the selection reads
/// that position back.
pub struct ModalMachineX {
    mm: ModalMachine,
    options_x: Vec<(String, String)>,
}

impl ModalMachineX {
    pub closed spec fn spec_mm(self) -> ModalMachine {
        self.mm
    }

    pub closed spec fn spec_options_x(self) -> Seq<(String, String)> {
        self.options_x@
    }

    pub fn default() -> (r: ModalMachineX)
        ensures
            r.spec_options_x().len() == 0,
            !r.spec_mm().has_event(),
    {
        ModalMachineX { mm: ModalMachine::default(), options_x: Vec::new() }
    }

    /// Resolves the selection: the first character of the selected option is
    /// its position among the key pairs. `None` when nothing resolvable is
    /// selected.
    pub fn get_selected_option(&self) -> (r: Option<(String, String)>)
        ensures
            match r {
                Some(p) => {
                    let sel = self.spec_mm().spec_selected();
                    &&& sel.len() > 0
                    &&& char_digit(sel[0]) >= 0
                    &&& char_digit(sel[0]) < self.spec_options_x().len()
                    &&& p.0@ == self.spec_options_x()[char_digit(sel[0])].0@
                    &&& p.1@ == self.spec_options_x()[char_digit(sel[0])].1@
                },
                None => {
                    let sel = self.spec_mm().spec_selected();
                    sel.len() == 0 || char_digit(sel[0]) < 0 || char_digit(sel[0])
                        >= self.spec_options_x().len()
                },
            },
    {
        let sel = self.mm.get_selected_option();
        if sel.as_str().unicode_len() == 0 {
            return None;
        }
        let c = sel.as_str().get_char(0);
        let d = match char_digit_exec(c) {
            Some(d) => d,
            None => {
                return None;
            },
        };
        if (d as usize) < self.options_x.len() {
            let pair = &self.options_x[d as usize];
            Some((pair.0.clone(), pair.1.clone()))
        } else {
            None
        }
    }

    pub fn use_event(&mut self) -> (r: Option<()>)
        ensures
            !final(self).spec_mm().has_event(),
            r is Some <==> old(self).spec_mm().has_event(),
            final(self).spec_options_x() == old(self).spec_options_x(),
            final(self).spec_mm().spec_selected() == old(self).spec_mm().spec_selected(),
    {
        self.mm.use_event()
    }

    pub fn set_options(&mut self, options_x: Vec<(String, String)>)
        ensures
            final(self).spec_options_x() == options_x@,
            final(self).spec_mm() == old(self).spec_mm(),
    {
        self.options_x = options_x;
    }
}

/// Every entry of a cache is internally well formed.
pub open spec fn cache_wf(m: OrdMap<NetherPortal>) -> bool {
    &&& m.wf()
    &&& forall|i: int| 0 <= i < m.spec_len() ==> (#[trigger] m.val_seq()[i]).wf()
}

/// What ingesting one record does to the entry under its key: an existing
/// entry keeps its identity, edit view and image sub-cache and only the
/// record is replaced; an absent key gets a fresh entry.
pub open spec fn ingest_entry_post(
    pre: Option<NetherPortal>,
    id: i32,
    pt: PortalText,
    post: NetherPortal,
) -> bool {
    match pre {
        Some(e) => {
            &&& post.spec_id() == e.spec_id()
            &&& post.spec_images() == e.spec_images()
            &&& post.spec_btree() == e.spec_btree()
            &&& post.spec_image_pos() == e.spec_image_pos()
            &&& post.spec_img_list_req() == e.spec_img_list_req()
            &&& post.spec_text().spec_value() == pt
            &&& !post.spec_text().has_promise()
        },
        None => {
            &&& post.spec_id() == id
            &&& post.spec_text().spec_value() == pt
            &&& !post.spec_text().has_promise()
            &&& post.spec_images().spec_len() == 0
            &&& post.spec_btree().spec_len() == 0
            &&& post.spec_image_pos() == Seq::<char>::empty()
        },
    }
}

/// What ingesting one record does to a whole realm cache: exactly the entry
/// under the record's key changes, every other entry stays, and the size
/// grows only when the key is new.
pub open spec fn ingest_map_post(
    pre: OrdMap<NetherPortal>,
    id: i32,
    key: Seq<char>,
    pt: PortalText,
    post: OrdMap<NetherPortal>,
) -> bool {
    &&& cache_wf(post)
    &&& post.contains_key(key)
    &&& post.spec_get(key) is Some
    &&& ingest_entry_post(pre.spec_get(key), id, pt, post.spec_get(key).unwrap())
    &&& forall|k2: Seq<char>| k2 != key ==> post.spec_get(k2) == pre.spec_get(k2)
    &&& forall|k2: Seq<char>| k2 != key ==> post.contains_key(k2) == pre.contains_key(k2)
    &&& post.spec_len() as int == pre.spec_len() as int + (if pre.contains_key(key) {
        0int
    } else {
        1int
    })
}

/// Idempotent ingestion: delivering the same key twice, with whatever texts,
/// leaves the cache with exactly one entry for that key, holding the text
/// ingested last, its image sub-cache exactly as one delivery left it; every
/// other key is untouched.
pub proof fn lemma_idempotent_ingestion(
    m0: OrdMap<NetherPortal>,
    m1: OrdMap<NetherPortal>,
    m2: OrdMap<NetherPortal>,
    id1: i32,
    id2: i32,
    key: Seq<char>,
    t1: PortalText,
    t2: PortalText,
)
    requires
        ingest_map_post(m0, id1, key, t1, m1),
        ingest_map_post(m1, id2, key, t2, m2),
    ensures
        m2.contains_key(key),
        m2.spec_len() as int == m0.spec_len() as int + (if m0.contains_key(key) {
            0int
        } else {
            1int
        }),
        m2.spec_get(key).unwrap().spec_text().spec_value() == t2,
        m2.spec_get(key).unwrap().spec_images() == m1.spec_get(key).unwrap().spec_images(),
        !m0.contains_key(key) ==> m2.spec_get(key).unwrap().spec_images().spec_len() == 0,
        m0.contains_key(key) ==> m2.spec_get(key).unwrap().spec_images() == m0.spec_get(
            key,
        ).unwrap().spec_images(),
        forall|k2: Seq<char>| k2 != key ==> m2.spec_get(k2) == m0.spec_get(k2),
{
}

/// The two-realm entity cache: one ordered map and one cursor per realm, the
/// ingestion channels, and the state of the edit/save round trip.
pub struct NetherPortals {
    overworld: OrdMap<NetherPortal>,
    ow_position: Keys,
    nether: OrdMap<NetherPortal>,
    nether_position: Keys,
    nether_portal_text_comm: Communicator<NetherPortalText>,
    imager_comm: Communicator<Imager>,
    mutate: bool,
    text_request: SPromise<Option<String>>,
    overworld_image_modal: ModalMachine,
    nether_image_modal: ModalMachine,
    realm_modal: ModalMachineX,
    start_guard: bool,
}

impl NetherPortals {
    pub closed spec fn spec_overworld(self) -> OrdMap<NetherPortal> {
        self.overworld
    }

    pub closed spec fn spec_nether(self) -> OrdMap<NetherPortal> {
        self.nether
    }

    pub closed spec fn spec_ow_pos(self) -> Keys {
        self.ow_position
    }

    pub closed spec fn spec_neth_pos(self) -> Keys {
        self.nether_position
    }

    pub closed spec fn spec_mutate(self) -> bool {
        self.mutate
    }

    pub closed spec fn spec_text_request(self) -> SPromise<Option<String>> {
        self.text_request
    }

    pub closed spec fn spec_realm_modal(self) -> ModalMachineX {
        self.realm_modal
    }

    pub closed spec fn spec_image_modal(self, realm: Realm) -> ModalMachine {
        match realm {
            Realm::Overworld => self.overworld_image_modal,
            Realm::Nether => self.nether_image_modal,
        }
    }

    /// The realm map a given realm names.
    pub open spec fn spec_realm(self, realm: Realm) -> OrdMap<NetherPortal> {
        match realm {
            Realm::Overworld => self.spec_overworld(),
            Realm::Nether => self.spec_nether(),
        }
    }

    pub open spec fn wf(self) -> bool {
        &&& cache_wf(self.spec_overworld())
        &&& cache_wf(self.spec_nether())
        &&& self.spec_ow_pos().wf()
        &&& self.spec_neth_pos().wf()
    }

    pub fn default() -> (r: NetherPortals)
        ensures
            r.wf(),
            r.spec_overworld().spec_len() == 0,
            r.spec_nether().spec_len() == 0,
            r.spec_ow_pos().spec_len() == 0,
            r.spec_neth_pos().spec_len() == 0,
            !r.spec_mutate(),
            !r.spec_text_request().has_promise(),
            !r.spec_started(),
    {
        NetherPortals {
            overworld: OrdMap::new(),
            ow_position: Keys::default(),
            nether: OrdMap::new(),
            nether_position: Keys::default(),
            nether_portal_text_comm: Communicator::new(),
            imager_comm: Communicator::new(),
            mutate: false,
            text_request: SPromise::make_no_promise(None),
            overworld_image_modal: ModalMachine::default(),
            nether_image_modal: ModalMachine::default(),
            realm_modal: ModalMachineX::default(),
            start_guard: false,
        }
    }

    /// Whether the initial bulk load of this cache instance was triggered.
    pub closed spec fn spec_started(self) -> bool {
        self.start_guard
    }

    /// The one-time start latch: grants the initial bulk load on the first
    /// call of this cache instance's lifetime and refuses every later one, so
    /// the load is triggered exactly once.
    pub fn try_start(&mut self) -> (r: bool)
        ensures
            r == !old(self).spec_started(),
            final(self).spec_started(),
            final(self).spec_overworld() == old(self).spec_overworld(),
            final(self).spec_nether() == old(self).spec_nether(),
            final(self).spec_ow_pos() == old(self).spec_ow_pos(),
            final(self).spec_neth_pos() == old(self).spec_neth_pos(),
            final(self).spec_text_request() == old(self).spec_text_request(),
            final(self).spec_mutate() == old(self).spec_mutate(),
    {
        let granted = !self.start_guard;
        self.start_guard = true;
        granted
    }

    pub fn realm_ref(&self, realm: &Realm) -> (r: &OrdMap<NetherPortal>)
        ensures
            *r == self.spec_realm(*realm),
    {
        match realm {
            Realm::Overworld => &self.overworld,
            Realm::Nether => &self.nether,
        }
    }

    pub fn overworld_ref(&self) -> (r: &OrdMap<NetherPortal>)
        ensures
            *r == self.spec_overworld(),
    {
        &self.overworld
    }

    pub fn nether_ref(&self) -> (r: &OrdMap<NetherPortal>)
        ensures
            *r == self.spec_nether(),
    {
        &self.nether
    }

    pub fn is_overworld_empty(&self) -> (r: bool)
        ensures
            r == (self.spec_overworld().spec_len() == 0),
    {
        self.overworld.is_empty()
    }

    pub fn is_nether_empty(&self) -> (r: bool)
        ensures
            r == (self.spec_nether().spec_len() == 0),
    {
        self.nether.is_empty()
    }

    pub fn get_mutate(&self) -> (r: bool)
        ensures
            r == self.spec_mutate(),
    {
        self.mutate
    }

    pub fn set_mutate(&mut self, booly: bool) -> (r: bool)
        ensures
            final(self).spec_mutate() == booly,
            r == booly,
            final(self).spec_overworld() == old(self).spec_overworld(),
            final(self).spec_nether() == old(self).spec_nether(),
            final(self).spec_ow_pos() == old(self).spec_ow_pos(),
            final(self).spec_neth_pos() == old(self).spec_neth_pos(),
            final(self).spec_text_request() == old(self).spec_text_request(),
    {
        self.mutate = booly;
        self.mutate
    }

    /// The key under a realm's cursor.
    pub fn realm_pos(&self, realm: &Realm) -> (r: Option<String>)
        requires
            self.wf(),
        ensures
            match realm {
                Realm::Overworld => match r {
                    Some(s) => self.spec_ow_pos().spec_len() > 0 && s@
                        == self.spec_ow_pos().key_view()[self.spec_ow_pos().spec_index()],
                    None => self.spec_ow_pos().spec_len() == 0,
                },
                Realm::Nether => match r {
                    Some(s) => self.spec_neth_pos().spec_len() > 0 && s@
                        == self.spec_neth_pos().key_view()[self.spec_neth_pos().spec_index()],
                    None => self.spec_neth_pos().spec_len() == 0,
                },
            },
    {
        match realm {
            Realm::Overworld => self.ow_position.current(),
            Realm::Nether => self.nether_position.current(),
        }
    }

    pub fn get_ow_pos(&self) -> (r: Option<String>)
        requires
            self.wf(),
        ensures
            match r {
                Some(s) => self.spec_ow_pos().spec_len() > 0 && s@
                    == self.spec_ow_pos().key_view()[self.spec_ow_pos().spec_index()],
                None => self.spec_ow_pos().spec_len() == 0,
            },
    {
        self.ow_position.current()
    }

    pub fn get_neth_pos(&self) -> (r: Option<String>)
        requires
            self.wf(),
        ensures
            match r {
                Some(s) => self.spec_neth_pos().spec_len() > 0 && s@
                    == self.spec_neth_pos().key_view()[self.spec_neth_pos().spec_index()],
                None => self.spec_neth_pos().spec_len() == 0,
            },
    {
        self.nether_position.current()
    }

    pub fn set_ow_pos(&mut self, keys: Vec<String>)
        requires
            old(self).wf(),
        ensures
            final(self).wf(),
            final(self).spec_ow_pos().wf(),
            final(self).spec_ow_pos().key_view() == keys@.map_values(|s: String| s@),
            final(self).spec_overworld() == old(self).spec_overworld(),
            final(self).spec_nether() == old(self).spec_nether(),
            final(self).spec_neth_pos() == old(self).spec_neth_pos(),
            final(self).spec_text_request() == old(self).spec_text_request(),
    {
        self.ow_position.set_keys(keys);
    }

    pub fn set_neth_pos(&mut self, keys: Vec<String>)
        requires
            old(self).wf(),
        ensures
            final(self).wf(),
            final(self).spec_neth_pos().wf(),
            final(self).spec_neth_pos().key_view() == keys@.map_values(|s: String| s@),
            final(self).spec_overworld() == old(self).spec_overworld(),
            final(self).spec_nether() == old(self).spec_nether(),
            final(self).spec_ow_pos() == old(self).spec_ow_pos(),
            final(self).spec_text_request() == old(self).spec_text_request(),
    {
        self.nether_position.set_keys(keys);
    }

    /// Advances the overworld cursor by one, clamped at the last key.
    pub fn ow_pos_up(&mut self)
        requires
            old(self).wf(),
        ensures
            final(self).wf(),
            final(self).spec_ow_pos().key_view() == old(self).spec_ow_pos().key_view(),
            final(self).spec_ow_pos().spec_index() == nav_up(old(self).spec_ow_pos()),
            final(self).spec_overworld() == old(self).spec_overworld(),
            final(self).spec_nether() == old(self).spec_nether(),
            final(self).spec_neth_pos() == old(self).spec_neth_pos(),
            final(self).spec_text_request() == old(self).spec_text_request(),
            final(self).spec_mutate() == old(self).spec_mutate(),
            final(self).spec_realm_modal() == old(self).spec_realm_modal(),
            final(self).spec_image_modal(Realm::Overworld) == old(self).spec_image_modal(Realm::Overworld),
            final(self).spec_image_modal(Realm::Nether) == old(self).spec_image_modal(Realm::Nether),
            final(self).spec_started() == old(self).spec_started(),
    {
        let index = self.ow_position.get_index();
        let len = self.ow_position.len();
        if len > 0 && index < len - 1 {
            self.ow_position.set_pos(index + 1);
        }
    }

    /// Retreats the overworld cursor by one, clamped at the first key.
    pub fn ow_pos_down(&mut self)
        requires
            old(self).wf(),
        ensures
            final(self).wf(),
            final(self).spec_ow_pos().key_view() == old(self).spec_ow_pos().key_view(),
            final(self).spec_ow_pos().spec_index() == nav_down(old(self).spec_ow_pos()),
            final(self).spec_overworld() == old(self).spec_overworld(),
            final(self).spec_nether() == old(self).spec_nether(),
            final(self).spec_neth_pos() == old(self).spec_neth_pos(),
            final(self).spec_text_request() == old(self).spec_text_request(),
            final(self).spec_mutate() == old(self).spec_mutate(),
            final(self).spec_realm_modal() == old(self).spec_realm_modal(),
            final(self).spec_image_modal(Realm::Overworld) == old(self).spec_image_modal(Realm::Overworld),
            final(self).spec_image_modal(Realm::Nether) == old(self).spec_image_modal(Realm::Nether),
            final(self).spec_started() == old(self).spec_started(),
    {
        let index = self.ow_position.get_index();
        if index > 0 {
            self.ow_position.set_pos(index - 1);
        }
    }

    /// Advances the nether cursor by one, clamped at the last key.
    pub fn neth_pos_up(&mut self)
        requires
            old(self).wf(),
        ensures
            final(self).wf(),
            final(self).spec_neth_pos().key_view() == old(self).spec_neth_pos().key_view(),
            final(self).spec_neth_pos().spec_index() == nav_up(old(self).spec_neth_pos()),
            final(self).spec_overworld() == old(self).spec_overworld(),
            final(self).spec_nether() == old(self).spec_nether(),
            final(self).spec_ow_pos() == old(self).spec_ow_pos(),
            final(self).spec_text_request() == old(self).spec_text_request(),
            final(self).spec_mutate() == old(self).spec_mutate(),
            final(self).spec_realm_modal() == old(self).spec_realm_modal(),
            final(self).spec_image_modal(Realm::Overworld) == old(self).spec_image_modal(Realm::Overworld),
            final(self).spec_image_modal(Realm::Nether) == old(self).spec_image_modal(Realm::Nether),
            final(self).spec_started() == old(self).spec_started(),
    {
        let index = self.nether_position.get_index();
        let len = self.nether_position.len();
        if len > 0 && index < len - 1 {
            self.nether_position.set_pos(index + 1);
        }
    }

    /// Retreats the nether cursor by one, clamped at the first key.
    pub fn neth_pos_down(&mut self)
        requires
            old(self).wf(),
        ensures
            final(self).wf(),
            final(self).spec_neth_pos().key_view() == old(self).spec_neth_pos().key_view(),
            final(self).spec_neth_pos().spec_index() == nav_down(old(self).spec_neth_pos()),
            final(self).spec_overworld() == old(self).spec_overworld(),
            final(self).spec_nether() == old(self).spec_nether(),
            final(self).spec_ow_pos() == old(self).spec_ow_pos(),
            final(self).spec_text_request() == old(self).spec_text_request(),
            final(self).spec_mutate() == old(self).spec_mutate(),
            final(self).spec_realm_modal() == old(self).spec_realm_modal(),
            final(self).spec_image_modal(Realm::Overworld) == old(self).spec_image_modal(Realm::Overworld),
            final(self).spec_image_modal(Realm::Nether) == old(self).spec_image_modal(Realm::Nether),
            final(self).spec_started() == old(self).spec_started(),
    {
        let index = self.nether_position.get_index();
        if index > 0 {
            self.nether_position.set_pos(index - 1);
        }
    }

    /// One more sender into the record ingestion channel.
    pub fn npt_sender_clone(&self) -> std::sync::mpsc::Sender<NetherPortalText> {
        self.nether_portal_text_comm.downloader_sender_clone()
    }

    /// One more sender into the image ingestion channel.
    pub fn imager_sender_clone(&self) -> std::sync::mpsc::Sender<Imager> {
        self.imager_comm.downloader_sender_clone()
    }

    pub fn npt_receiver(&self) -> &std::sync::mpsc::Receiver<NetherPortalText> {
        self.nether_portal_text_comm.downloader_receiver()
    }

    /// Merges one freshly streamed record half into one realm's cache:
    /// a known key keeps its entry and only takes the new record, an unknown
    /// key gets a fresh entry.
    pub fn consume_npt_helper(
        original_id: i32,
        key: String,
        np_list: &mut OrdMap<NetherPortal>,
        pt: PortalText,
    )
        requires
            cache_wf(*old(np_list)),
        ensures
            ingest_map_post(*old(np_list), original_id, key@, pt, *final(np_list)),
    {
        match np_list.find(key.as_str()) {
            Some(i) => {
                proof {
                    np_list.lemma_key_unique(key@, i as int);
                    np_list.lemma_wf_lens();
                }
                let dummy = NetherPortal::fresh(0, Default::default());
                let mut entry = np_list.replace_at(i, dummy);
                entry.add_portal_text(pt);
                let ghost updated = entry;
                let _ = np_list.replace_at(i, entry);
                proof {
                    np_list.lemma_wf_lens();
                    assert(np_list.val_seq() =~= old(np_list).val_seq().update(i as int, updated));
                    assert forall|j: int|
                        0 <= j < np_list.spec_len() implies (#[trigger] np_list.val_seq()[j]).wf()
                        by {
                        if j != i {
                            assert(np_list.val_seq()[j] == old(np_list).val_seq()[j]);
                        }
                    }
                    assert(cache_wf(*np_list));
                }
            },
            None => {
                np_list.insert_new(key, NetherPortal::fresh(original_id, pt));
                proof {
                    np_list.lemma_wf_lens();
                    old(np_list).lemma_wf_lens();
                    assert forall|i: int|
                        0 <= i < np_list.spec_len() implies (#[trigger] np_list.val_seq()[i]).wf()
                        by {
                        let k2 = np_list.key_seq()[i];
                        np_list.lemma_key_unique(k2, i);
                        assert(np_list.spec_get(k2) == Some(np_list.val_seq()[i]));
                        if k2 == key@ {
                        } else {
                            old(np_list).lemma_index_in_range(k2);
                            assert(old(np_list).val_seq()[old(np_list).index_of_key(k2)].wf());
                        }
                    }
                }
            },
        }
    }

    /// Merges one full streamed record: its overworld half into the overworld
    /// cache under the overworld true name, its nether half likewise.
    pub fn consume_npt(&mut self, npt: NetherPortalText)
        requires
            old(self).wf(),
        ensures
            final(self).wf(),
            ingest_map_post(
                old(self).spec_overworld(),
                npt.id,
                npt.overworld.true_name@,
                npt.overworld,
                final(self).spec_overworld(),
            ),
            ingest_map_post(
                old(self).spec_nether(),
                npt.id,
                npt.nether.true_name@,
                npt.nether,
                final(self).spec_nether(),
            ),
            final(self).spec_ow_pos() == old(self).spec_ow_pos(),
            final(self).spec_neth_pos() == old(self).spec_neth_pos(),
            final(self).spec_text_request() == old(self).spec_text_request(),
            final(self).spec_started() == old(self).spec_started(),
    {
        let og_id = npt.id;
        let NetherPortalText { id: _, overworld, nether, username: _ } = npt;
        let ow_key = overworld.true_name.clone();
        Self::consume_npt_helper(og_id, ow_key, &mut self.overworld, overworld);
        let neth_key = nether.true_name.clone();
        Self::consume_npt_helper(og_id, neth_key, &mut self.nether, nether);
    }
}

/// The label the paired realm selector shows for one position: the position
/// itself first, then the two keys.
pub open spec fn pair_label(j: int, ow_key: Seq<char>, neth_key: Seq<char>) -> Seq<char> {
    int_chars(j) + ": "@ + ow_key + " & "@ + neth_key
}

/// Lock-step pairing: for the ten positions one digit can name, the label
/// built for a position resolves back to that position, so picking a label
/// in the realm selector picks its own key pair.
pub proof fn lemma_pair_label_resolves(j: int, ow_key: Seq<char>, neth_key: Seq<char>)
    requires
        0 <= j < 10,
    ensures
        pair_label(j, ow_key, neth_key).len() > 0,
        char_digit(pair_label(j, ow_key, neth_key)[0]) == j,
{
    let label = pair_label(j, ow_key, neth_key);
    assert(int_chars(j) == crate::text::dec_digits(j as nat));
    assert(crate::text::dec_digits(j as nat) == seq![crate::text::digit_char(j)]);
    assert(label[0] == crate::text::digit_char(j));
    crate::text::lemma_char_digit_inverse(j);
}

/// Where an index of a list of `len` keys stands after one navigation step:
/// forward or back by one, clamped to the ends, unmoved on an empty list.
pub open spec fn nav_step(len: int, idx: int, forward: bool) -> int {
    if forward {
        if len > 0 && idx < len - 1 {
            idx + 1
        } else {
            idx
        }
    } else {
        if idx > 0 {
            idx - 1
        } else {
            idx
        }
    }
}

/// Where a cursor stands after one forward step.
pub open spec fn nav_up(k: Keys) -> int {
    nav_step(k.spec_len() as int, k.spec_index(), true)
}

/// Where a cursor stands after one backward step.
pub open spec fn nav_down(k: Keys) -> int {
    nav_step(k.spec_len() as int, k.spec_index(), false)
}

/// Where an index stands after a whole sequence of navigation steps.
pub open spec fn nav_many(len: int, idx: int, moves: Seq<bool>) -> int
    decreases moves.len(),
{
    if moves.len() == 0 {
        idx
    } else {
        nav_many(len, nav_step(len, idx, moves[0]), moves.drop_first())
    }
}

/// Cursor bounds: for any sequence of navigation steps, the index never
/// leaves `[0, len)` while there are keys, and stays at 0 with none.
pub proof fn lemma_cursor_bounds(len: int, idx: int, moves: Seq<bool>)
    requires
        len >= 0,
        len == 0 ==> idx == 0,
        len > 0 ==> 0 <= idx < len,
    ensures
        len == 0 ==> nav_many(len, idx, moves) == 0,
        len > 0 ==> 0 <= nav_many(len, idx, moves) < len,
    decreases moves.len(),
{
    if moves.len() > 0 {
        lemma_cursor_bounds(len, nav_step(len, idx, moves[0]), moves.drop_first());
    }
}


impl NetherPortals {
    pub fn realm_mut(&mut self, realm: &Realm) -> (r: &mut OrdMap<NetherPortal>)
        ensures
            *r == old(self).spec_realm(*realm),
            final(self).spec_realm(*realm) == *final(r),
            realm is Overworld ==> final(self).spec_nether() == old(self).spec_nether(),
            realm is Nether ==> final(self).spec_overworld() == old(self).spec_overworld(),
            final(self).spec_ow_pos() == old(self).spec_ow_pos(),
            final(self).spec_neth_pos() == old(self).spec_neth_pos(),
            final(self).spec_text_request() == old(self).spec_text_request(),
            final(self).spec_mutate() == old(self).spec_mutate(),
    {
        match realm {
            Realm::Overworld => &mut self.overworld,
            Realm::Nether => &mut self.nether,
        }
    }

    pub fn overworld_mut(&mut self) -> (r: &mut OrdMap<NetherPortal>)
        ensures
            *r == old(self).spec_overworld(),
            final(self).spec_overworld() == *final(r),
            final(self).spec_nether() == old(self).spec_nether(),
            final(self).spec_ow_pos() == old(self).spec_ow_pos(),
            final(self).spec_neth_pos() == old(self).spec_neth_pos(),
            final(self).spec_text_request() == old(self).spec_text_request(),
            final(self).spec_mutate() == old(self).spec_mutate(),
    {
        &mut self.overworld
    }

    pub fn nether_mut(&mut self) -> (r: &mut OrdMap<NetherPortal>)
        ensures
            *r == old(self).spec_nether(),
            final(self).spec_nether() == *final(r),
            final(self).spec_overworld() == old(self).spec_overworld(),
            final(self).spec_ow_pos() == old(self).spec_ow_pos(),
            final(self).spec_neth_pos() == old(self).spec_neth_pos(),
            final(self).spec_text_request() == old(self).spec_text_request(),
            final(self).spec_mutate() == old(self).spec_mutate(),
    {
        &mut self.nether
    }

    /// Overwrites the key string under one realm's cursor; `None` when that
    /// cursor has no keys.
    pub fn realm_pos_set(&mut self, realm: &Realm, pos: String) -> (r: Option<()>)
        requires
            old(self).wf(),
        ensures
            final(self).wf(),
            final(self).spec_overworld() == old(self).spec_overworld(),
            final(self).spec_nether() == old(self).spec_nether(),
            final(self).spec_text_request() == old(self).spec_text_request(),
            r is None ==> *final(self) == *old(self),
            r is Some && realm is Overworld ==> final(self).spec_ow_pos().key_view() == old(self).spec_ow_pos().key_view().update(old(self).spec_ow_pos().spec_index(), pos@)
                && final(self).spec_ow_pos().spec_index() == old(self).spec_ow_pos().spec_index()
                && final(self).spec_neth_pos() == old(self).spec_neth_pos(),
            r is Some && realm is Nether ==> final(self).spec_neth_pos().key_view() == old(self).spec_neth_pos().key_view().update(old(self).spec_neth_pos().spec_index(), pos@)
                && final(self).spec_neth_pos().spec_index() == old(self).spec_neth_pos().spec_index()
                && final(self).spec_ow_pos() == old(self).spec_ow_pos(),
    {
        let keys = match realm {
            Realm::Overworld => &mut self.ow_position,
            Realm::Nether => &mut self.nether_position,
        };
        match keys.current_mut() {
            Some(v) => {
                *v = pos;
                Some(())
            },
            None => None,
        }
    }

    /// Overwrites the key strings under both cursors, overworld first.
    pub fn realm_pos_set2(&mut self, pos: (String, String)) -> (r: Option<()>)
        requires
            old(self).wf(),
        ensures
            final(self).wf(),
            final(self).spec_overworld() == old(self).spec_overworld(),
            final(self).spec_nether() == old(self).spec_nether(),
            final(self).spec_text_request() == old(self).spec_text_request(),
    {
        let (ow, neth) = pos;
        match self.realm_pos_set(&Realm::Overworld, ow) {
            Some(_) => (),
            None => {
                return None;
            },
        }
        self.realm_pos_set(&Realm::Nether, neth)
    }

    pub fn text_request_ref(&self) -> (r: &SPromise<Option<String>>)
        ensures
            *r == self.spec_text_request(),
    {
        &self.text_request
    }

    pub fn text_request_mut(&mut self) -> (r: &mut SPromise<Option<String>>)
        ensures
            *r == old(self).spec_text_request(),
            final(self).spec_text_request() == *final(r),
            final(self).spec_overworld() == old(self).spec_overworld(),
            final(self).spec_nether() == old(self).spec_nether(),
            final(self).spec_ow_pos() == old(self).spec_ow_pos(),
            final(self).spec_neth_pos() == old(self).spec_neth_pos(),
    {
        &mut self.text_request
    }

    pub fn set_text_request(&mut self, spromise: SPromise<Option<String>>)
        ensures
            final(self).spec_text_request() == spromise,
            final(self).spec_overworld() == old(self).spec_overworld(),
            final(self).spec_nether() == old(self).spec_nether(),
            final(self).spec_ow_pos() == old(self).spec_ow_pos(),
            final(self).spec_neth_pos() == old(self).spec_neth_pos(),
            final(self).spec_mutate() == old(self).spec_mutate(),
    {
        self.text_request = spromise;
    }

    pub fn image_modal_ref(&self, realm: Realm) -> (r: &ModalMachine)
        ensures
            *r == self.spec_image_modal(realm),
    {
        match realm {
            Realm::Overworld => &self.overworld_image_modal,
            Realm::Nether => &self.nether_image_modal,
        }
    }

    pub fn image_modal_mut(&mut self, realm: &Realm) -> (r: &mut ModalMachine)
        ensures
            *r == old(self).spec_image_modal(*realm),
            final(self).spec_image_modal(*realm) == *final(r),
            realm is Overworld ==> final(self).spec_image_modal(Realm::Nether) == old(self).spec_image_modal(Realm::Nether),
            realm is Nether ==> final(self).spec_image_modal(Realm::Overworld) == old(self).spec_image_modal(Realm::Overworld),
            final(self).spec_overworld() == old(self).spec_overworld(),
            final(self).spec_nether() == old(self).spec_nether(),
            final(self).spec_ow_pos() == old(self).spec_ow_pos(),
            final(self).spec_neth_pos() == old(self).spec_neth_pos(),
            final(self).spec_text_request() == old(self).spec_text_request(),
    {
        match realm {
            Realm::Overworld => &mut self.overworld_image_modal,
            Realm::Nether => &mut self.nether_image_modal,
        }
    }

    pub fn set_image_modal(&mut self, realm: &Realm, mm: ModalMachine)
        ensures
            final(self).spec_image_modal(*realm) == mm,
            final(self).spec_overworld() == old(self).spec_overworld(),
            final(self).spec_nether() == old(self).spec_nether(),
            final(self).spec_ow_pos() == old(self).spec_ow_pos(),
            final(self).spec_neth_pos() == old(self).spec_neth_pos(),
            final(self).spec_text_request() == old(self).spec_text_request(),
    {
        match realm {
            Realm::Overworld => self.overworld_image_modal = mm,
            Realm::Nether => self.nether_image_modal = mm,
        }
    }

    pub fn realm_modal_mut(&mut self) -> (r: &mut ModalMachineX)
        ensures
            *r == old(self).spec_realm_modal(),
            final(self).spec_realm_modal() == *final(r),
            final(self).spec_overworld() == old(self).spec_overworld(),
            final(self).spec_nether() == old(self).spec_nether(),
            final(self).spec_ow_pos() == old(self).spec_ow_pos(),
            final(self).spec_neth_pos() == old(self).spec_neth_pos(),
            final(self).spec_text_request() == old(self).spec_text_request(),
    {
        &mut self.realm_modal
    }

    pub fn inner_mm_mut(&mut self) -> (r: &mut ModalMachine)
        ensures
            *r == old(self).spec_realm_modal().spec_mm(),
            final(self).spec_realm_modal().spec_mm() == *final(r),
            final(self).spec_realm_modal().spec_options_x() == old(self).spec_realm_modal().spec_options_x(),
            final(self).spec_overworld() == old(self).spec_overworld(),
            final(self).spec_nether() == old(self).spec_nether(),
            final(self).spec_ow_pos() == old(self).spec_ow_pos(),
            final(self).spec_neth_pos() == old(self).spec_neth_pos(),
            final(self).spec_text_request() == old(self).spec_text_request(),
    {
        &mut self.realm_modal.mm
    }

    /// Builds the paired realm selector options: one label and one key pair
    /// for each position the two realms share. A label starts with its
    /// position, so resolving a selected label finds its pair again.
    pub fn make_realm_modal_options(&self) -> (r: (Vec<String>, Vec<(String, String)>))
        requires
            self.wf(),
        ensures
            r.0@.len() == r.1@.len(),
            r.1@.len() == vstd::math::min(
                self.spec_overworld().spec_len() as int,
                self.spec_nether().spec_len() as int,
            ),
            forall|j: int|
                0 <= j < r.1@.len() ==> (#[trigger] r.1@[j]).0@
                    == self.spec_overworld().key_seq()[j] && r.1@[j].1@
                    == self.spec_nether().key_seq()[j],
            forall|j: int|
                0 <= j < r.0@.len() ==> (#[trigger] r.0@[j])@ == pair_label(
                    j,
                    self.spec_overworld().key_seq()[j],
                    self.spec_nether().key_seq()[j],
                ),
    {
        let ow_len = self.overworld.len();
        let neth_len = self.nether.len();
        let n = if ow_len < neth_len {
            ow_len
        } else {
            neth_len
        };
        let mut options: Vec<String> = Vec::new();
        let mut options_x: Vec<(String, String)> = Vec::new();
        let mut i: usize = 0;
        while i < n
            invariant
                i <= n,
                self.wf(),
                n == vstd::math::min(
                    self.spec_overworld().spec_len() as int,
                    self.spec_nether().spec_len() as int,
                ),
                options@.len() == i,
                options_x@.len() == i,
                forall|j: int|
                    0 <= j < i ==> (#[trigger] options_x@[j]).0@
                        == self.spec_overworld().key_seq()[j] && options_x@[j].1@
                        == self.spec_nether().key_seq()[j],
                forall|j: int|
                    0 <= j < i ==> (#[trigger] options@[j])@ == pair_label(
                        j,
                        self.spec_overworld().key_seq()[j],
                        self.spec_nether().key_seq()[j],
                    ),
            decreases n - i,
        {
            let ow_key = self.overworld.key_at(i).clone();
            let neth_key = self.nether.key_at(i).clone();
            let mut label = crate::text::u64_to_string(i as u64);
            label.append(": ");
            label.append(ow_key.as_str());
            label.append(" & ");
            label.append(neth_key.as_str());
            proof {
                assert(label@ =~= pair_label(
                    i as int,
                    self.spec_overworld().key_seq()[i as int],
                    self.spec_nether().key_seq()[i as int],
                ));
            }
            options.push(label);
            options_x.push((ow_key, neth_key));
            i = i + 1;
        }
        (options, options_x)
    }

    /// Rebuilds the paired realm selector from the current cache contents.
    pub fn realm_modal_set(&mut self)
        requires
            old(self).wf(),
        ensures
            final(self).wf(),
            final(self).spec_overworld() == old(self).spec_overworld(),
            final(self).spec_nether() == old(self).spec_nether(),
            final(self).spec_ow_pos() == old(self).spec_ow_pos(),
            final(self).spec_neth_pos() == old(self).spec_neth_pos(),
            final(self).spec_text_request() == old(self).spec_text_request(),
            final(self).spec_realm_modal().spec_options_x().len() == vstd::math::min(
                old(self).spec_overworld().spec_len() as int,
                old(self).spec_nether().spec_len() as int,
            ),
            final(self).spec_started() == old(self).spec_started(),
    {
        let (options, options_x) = self.make_realm_modal_options();
        let selected: String = if options.len() > 0 {
            options[0].clone()
        } else {
            String::new()
        };
        self.realm_modal.mm = ModalMachine::new(selected, options, String::new());
        self.realm_modal.set_options(options_x);
    }

    /// Drains the record ingestion channel (a bounded batch per tick) and
    /// merges every received record into both realms, refreshing the realm
    /// selector after each. Whatever arrived, a key the caches held stays
    /// held, the cursors do not move, and a pending save is untouched.
    pub fn try_update_npt(&mut self) -> (r: Result<(), ErrorX>)
        requires
            old(self).wf(),
        ensures
            final(self).wf(),
            r is Ok,
            forall|k: Seq<char>|
                old(self).spec_overworld().contains_key(k) ==> final(self).spec_overworld().contains_key(k),
            forall|k: Seq<char>|
                old(self).spec_nether().contains_key(k) ==> final(self).spec_nether().contains_key(k),
            final(self).spec_ow_pos() == old(self).spec_ow_pos(),
            final(self).spec_neth_pos() == old(self).spec_neth_pos(),
            final(self).spec_text_request() == old(self).spec_text_request(),
            final(self).spec_started() == old(self).spec_started(),
    {
        let mut batch = crate::thread_tools::drain_available(
            self.nether_portal_text_comm.downloader_receiver(),
            4096,
        );
        while batch.len() > 0
            invariant
                self.wf(),
                forall|k: Seq<char>|
                    old(self).spec_overworld().contains_key(k) ==> self.spec_overworld(
                    ).contains_key(k),
                forall|k: Seq<char>|
                    old(self).spec_nether().contains_key(k) ==> self.spec_nether().contains_key(
                        k,
                    ),
                self.spec_ow_pos() == old(self).spec_ow_pos(),
                self.spec_neth_pos() == old(self).spec_neth_pos(),
                self.spec_text_request() == old(self).spec_text_request(),
                self.spec_started() == old(self).spec_started(),
            decreases batch@.len(),
        {
            let npt = batch.remove(0);
            self.consume_npt(npt);
            self.realm_modal_set();
        }
        Ok(())
    }
}


/// The observable state of the edit/save round trip.
pub enum SaveStatus {
    /// No save is in flight.
    Idle,
    /// A save was dispatched and has not settled yet.
    Saving,
    /// The last save settled without an error.
    Succeeded,
    /// The last save settled with the server's reason.
    Failed(String),
}

/// Maps what a settled save request carries to the status the caller sees:
/// a message means failure with that reason, no message means success.
pub fn classify_settlement(outcome: &Option<String>) -> (r: SaveStatus)
    ensures
        match outcome {
            Some(m) => r matches SaveStatus::Failed(s) && s@ == m@,
            None => r is Succeeded,
        },
{
    match outcome {
        Some(m) => SaveStatus::Failed(m.clone()),
        None => SaveStatus::Succeeded,
    }
}

impl NetherPortals {
    /// Whether a save is in flight: a pending request cell exists and has not
    /// been observed settled.
    pub open spec fn is_saving(self) -> bool {
        self.spec_text_request().has_promise()
    }

    pub fn saving(&self) -> (r: bool)
        ensures
            r == self.is_saving(),
    {
        self.text_request.promised()
    }

    /// The key under the overworld cursor.
    pub open spec fn ow_cur_key(self) -> Seq<char> {
        self.spec_ow_pos().key_view()[self.spec_ow_pos().spec_index()]
    }

    /// The key under the nether cursor.
    pub open spec fn neth_cur_key(self) -> Seq<char> {
        self.spec_neth_pos().key_view()[self.spec_neth_pos().spec_index()]
    }

    /// Whether a save can start: both cursors rest on keys the caches hold,
    /// and both entities' edit views parse back into structured records.
    pub open spec fn save_ready(self) -> bool {
        &&& self.spec_ow_pos().spec_len() > 0
        &&& self.spec_neth_pos().spec_len() > 0
        &&& self.spec_overworld().contains_key(self.ow_cur_key())
        &&& self.spec_nether().contains_key(self.neth_cur_key())
        &&& flat_parses(self.spec_overworld().spec_get(self.ow_cur_key()).unwrap().spec_btree())
        &&& flat_parses(self.spec_nether().spec_get(self.neth_cur_key()).unwrap().spec_btree())
    }

    /// The origin identifier a save payload carries: the overworld entity's,
    /// unless that one never had an identifier, then the nether entity's.
    pub open spec fn save_id(self) -> i32 {
        if self.spec_overworld().spec_get(self.ow_cur_key()).unwrap().spec_id() < 0 {
            self.spec_nether().spec_get(self.neth_cur_key()).unwrap().spec_id()
        } else {
            self.spec_overworld().spec_get(self.ow_cur_key()).unwrap().spec_id()
        }
    }

    /// Starts one save of the entity pair under the cursors.
    ///
    /// A second start while a save is in flight is rejected as a misuse and
    /// changes nothing; so is a start before both edit views parse. On
    /// success the coordinator is Saving: the fresh pending-request cell is
    /// stored, and the payload plus the one producer that can settle the cell
    /// go to the caller, who dispatches the network call.
    pub fn start_save(&mut self) -> (r: Result<
        (NetherPortalText, SPromiseSender<Option<String>>),
        ErrorX,
    >)
        requires
            old(self).wf(),
        ensures
            final(self).wf(),
            r is Err ==> *final(self) == *old(self),
            old(self).is_saving() ==> r is Err,
            r is Ok <==> !old(self).is_saving() && old(self).save_ready(),
            r is Ok ==> final(self).is_saving() && !final(self).spec_text_request().has_sender(),
            r matches Ok(p) ==> {
                &&& p.0.id == old(self).save_id()
                &&& unflattened(
                    old(self).spec_overworld().spec_get(old(self).ow_cur_key()).unwrap().spec_btree(),
                    p.0.overworld,
                )
                &&& unflattened(
                    old(self).spec_nether().spec_get(old(self).neth_cur_key()).unwrap().spec_btree(),
                    p.0.nether,
                )
            },
            r is Ok ==> final(self).spec_overworld() == old(self).spec_overworld()
                && final(self).spec_nether() == old(self).spec_nether()
                && final(self).spec_ow_pos() == old(self).spec_ow_pos()
                && final(self).spec_neth_pos() == old(self).spec_neth_pos(),
    {
        if self.saving() {
            return Err(ErrorX::new("a save is already in flight; poll it before saving again"));
        }
        let ow_key = match self.ow_position.current() {
            Some(k) => k,
            None => {
                return Err(ErrorX::new("no overworld entity is selected"));
            },
        };
        let neth_key = match self.nether_position.current() {
            Some(k) => k,
            None => {
                return Err(ErrorX::new("no nether entity is selected"));
            },
        };
        let ow_np = match self.overworld.get(ow_key.as_str()) {
            Some(np) => np,
            None => {
                return Err(ErrorX::new("the overworld selection is not in the cache"));
            },
        };
        let neth_np = match self.nether.get(neth_key.as_str()) {
            Some(np) => np,
            None => {
                return Err(ErrorX::new("the nether selection is not in the cache"));
            },
        };
        proof {
            self.overworld.lemma_index_in_range(self.ow_cur_key());
            self.nether.lemma_index_in_range(self.neth_cur_key());
            self.overworld.lemma_wf_lens();
            self.nether.lemma_wf_lens();
        }
        let overworld_pt = match PortalText::from_btree(ow_np.btree_ref()) {
            Ok(pt) => pt,
            Err(e) => {
                return Err(e);
            },
        };
        let nether_pt = match PortalText::from_btree(neth_np.btree_ref()) {
            Ok(pt) => pt,
            Err(e) => {
                return Err(e);
            },
        };
        let ow_id = ow_np.get_id();
        let neth_id = neth_np.get_id();
        let id = if ow_id < 0 {
            neth_id
        } else {
            ow_id
        };
        let npt = NetherPortalText::build_from(id, overworld_pt, nether_pt);
        let (spromise, sender) = SPromise::make_promise(None);
        self.text_request = spromise;
        Ok((npt, sender))
    }

    /// Observes the pending save without blocking. Idle exactly when no save
    /// is in flight; Saving, with nothing changed, while the request has not
    /// settled; once it has, the settlement is classified and the pending
    /// request is replaced with the empty sentinel, so the coordinator is
    /// idle again and a new save may start.
    pub fn poll_save(&mut self) -> (r: SaveStatus)
        requires
            old(self).wf(),
        ensures
            final(self).wf(),
            r is Idle <==> !old(self).is_saving(),
            r is Idle ==> *final(self) == *old(self),
            r is Saving ==> *final(self) == *old(self) && final(self).is_saving(),
            (r is Succeeded || r is Failed) ==> !final(self).is_saving(),
            final(self).spec_overworld() == old(self).spec_overworld(),
            final(self).spec_nether() == old(self).spec_nether(),
            final(self).spec_ow_pos() == old(self).spec_ow_pos(),
            final(self).spec_neth_pos() == old(self).spec_neth_pos(),
    {
        if !self.saving() {
            return SaveStatus::Idle;
        }
        let outcome: Option<Option<String>> = match self.text_request.poll() {
            Some(v) => Some(
                match v {
                    Some(m) => Some(m.clone()),
                    None => None,
                },
            ),
            None => None,
        };
        match outcome {
            None => SaveStatus::Saving,
            Some(oc) => {
                self.text_request = SPromise::make_no_promise(None);
                classify_settlement(&oc)
            },
        }
    }
}


impl NetherPortals {
    /// Discards every overworld entity's edit view and regenerates it from
    /// the structured record: undo-all, for the whole realm.
    pub fn reset_all_btree(&mut self)
        requires
            old(self).wf(),
        ensures
            final(self).wf(),
            final(self).spec_overworld().key_seq() == old(self).spec_overworld().key_seq(),
            final(self).spec_nether() == old(self).spec_nether(),
            final(self).spec_ow_pos() == old(self).spec_ow_pos(),
            final(self).spec_neth_pos() == old(self).spec_neth_pos(),
            final(self).spec_text_request() == old(self).spec_text_request(),
            forall|j: int|
                0 <= j < final(self).spec_overworld().spec_len() ==> flat_view_of(
                    (#[trigger] final(self).spec_overworld().val_seq()[j]).spec_btree(),
                    old(self).spec_overworld().val_seq()[j].spec_text().spec_value(),
                ),
    {
        let map = &mut self.overworld;
        let n = map.len();
        let mut i: usize = 0;
        proof {
            map.lemma_wf_lens();
        }
        while i < n
            invariant
                i <= n,
                n == map.spec_len(),
                cache_wf(*map),
                map.key_seq() == old(self).spec_overworld().key_seq(),
                map.val_seq().len() == old(self).spec_overworld().val_seq().len(),
                forall|j: int|
                    0 <= j < i ==> flat_view_of(
                        (#[trigger] map.val_seq()[j]).spec_btree(),
                        old(self).spec_overworld().val_seq()[j].spec_text().spec_value(),
                    ),
                forall|j: int|
                    i <= j < n ==> #[trigger] map.val_seq()[j] == old(self).spec_overworld().val_seq()[j],
            decreases n - i,
        {
            proof {
                map.lemma_wf_lens();
            }
            let ghost pre_map = *map;
            let dummy = NetherPortal::fresh(0, Default::default());
            let mut entry = map.replace_at(i, dummy);
            entry.set_as_btree();
            let ghost renewed = entry;
            let _ = map.replace_at(i, entry);
            proof {
                assert(map.val_seq() =~= pre_map.val_seq().update(i as int, renewed));
                assert forall|j: int|
                    0 <= j < map.spec_len() implies (#[trigger] map.val_seq()[j]).wf() by {
                    if j != i {
                        assert(map.val_seq()[j] == pre_map.val_seq()[j]);
                    }
                }
            }
            i = i + 1;
        }
    }

    /// Discards one overworld entity's edit view and regenerates it from its
    /// structured record: undo-all, for that key only.
    pub fn reset_this_btree(&mut self, key: &str) -> (r: Option<()>)
        requires
            old(self).wf(),
        ensures
            final(self).wf(),
            final(self).spec_nether() == old(self).spec_nether(),
            final(self).spec_ow_pos() == old(self).spec_ow_pos(),
            final(self).spec_neth_pos() == old(self).spec_neth_pos(),
            final(self).spec_text_request() == old(self).spec_text_request(),
            r is None ==> !old(self).spec_overworld().contains_key(key@) && final(self).spec_overworld() == old(self).spec_overworld(),
            r is Some ==> old(self).spec_overworld().contains_key(key@) && flat_view_of(
                final(self).spec_overworld().spec_get(key@).unwrap().spec_btree(),
                old(self).spec_overworld().spec_get(key@).unwrap().spec_text().spec_value(),
            ),
    {
        let map = &mut self.overworld;
        let i = match map.find(key) {
            Some(i) => i,
            None => {
                return None;
            },
        };
        proof {
            map.lemma_key_unique(key@, i as int);
            map.lemma_wf_lens();
        }
        let ghost pre_map = *map;
        let dummy = NetherPortal::fresh(0, Default::default());
        let mut entry = map.replace_at(i, dummy);
        entry.set_as_btree();
        let ghost renewed = entry;
        let _ = map.replace_at(i, entry);
        proof {
            assert(map.val_seq() =~= pre_map.val_seq().update(i as int, renewed));
            assert forall|j: int|
                0 <= j < map.spec_len() implies (#[trigger] map.val_seq()[j]).wf() by {
                if j != i {
                    assert(map.val_seq()[j] == pre_map.val_seq()[j]);
                }
            }
        }
        Some(())
    }

    /// Clears one entity's image sub-cache and selection, forcing its next
    /// load; the one way back to `needs_load` within a session.
    pub fn invalidate_images(&mut self, realm: &Realm, key: &str) -> (r: Option<()>)
        requires
            old(self).wf(),
        ensures
            final(self).wf(),
            final(self).spec_ow_pos() == old(self).spec_ow_pos(),
            final(self).spec_neth_pos() == old(self).spec_neth_pos(),
            final(self).spec_text_request() == old(self).spec_text_request(),
            r is None ==> !old(self).spec_realm(*realm).contains_key(key@),
            r is Some ==> old(self).spec_realm(*realm).contains_key(key@) && final(self).spec_realm(*realm).spec_get(key@).unwrap().spec_images().spec_len() == 0,
    {
        let map = match realm {
            Realm::Overworld => &mut self.overworld,
            Realm::Nether => &mut self.nether,
        };
        let i = match map.find(key) {
            Some(i) => i,
            None => {
                return None;
            },
        };
        proof {
            map.lemma_key_unique(key@, i as int);
            map.lemma_wf_lens();
        }
        let ghost pre_map = *map;
        let dummy = NetherPortal::fresh(0, Default::default());
        let mut entry = map.replace_at(i, dummy);
        entry.invalidate();
        let ghost renewed = entry;
        let _ = map.replace_at(i, entry);
        proof {
            assert(map.val_seq() =~= pre_map.val_seq().update(i as int, renewed));
            assert forall|j: int|
                0 <= j < map.spec_len() implies (#[trigger] map.val_seq()[j]).wf() by {
                if j != i {
                    assert(map.val_seq()[j] == pre_map.val_seq()[j]);
                }
            }
        }
        Some(())
    }
}

} // verus!

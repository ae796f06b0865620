//! Attribute values and items: the shape in which the table holds a record.
use vstd::prelude::*;

verus! {

/// One value of an item, of any of the kinds that the store has.
#[derive(Debug, PartialEq, Eq)]
pub enum AttributeValue {
    /// Binary data.
    B(Vec<u8>),
    /// A truth value.
    Bool(bool),
    /// A set of binary data.
    Bs(Vec<Vec<u8>>),
    /// A list of values.
    L(Vec<AttributeValue>),
    /// A mapping from names to values.
    M(Item),
    /// A number, held as its decimal text.
    N(String),
    /// A set of numbers, each held as its decimal text.
    Ns(Vec<String>),
    /// The null value.
    Null(bool),
    /// A string.
    S(String),
    /// A set of strings.
    Ss(Vec<String>),
    /// A value of a kind that this library has no name for.
    Unknown,
}

/// What an [`AttributeValue`] is, as a mathematical value.
pub enum AttributeView {
    B(Seq<u8>),
    Bool(bool),
    Bs(Seq<Seq<u8>>),
    L(Seq<AttributeView>),
    M(Map<Seq<char>, AttributeView>),
    N(Seq<char>),
    Ns(Seq<Seq<char>>),
    Null(bool),
    S(Seq<char>),
    Ss(Seq<Seq<char>>),
    Unknown,
}

/// The texts of a list of strings.
pub open spec fn texts(strings: Seq<String>) -> Seq<Seq<char>> {
    Seq::new(strings.len(), |i: int| strings[i]@)
}

/// The contents of a list of binary data.
pub open spec fn blobs(data: Seq<Vec<u8>>) -> Seq<Seq<u8>> {
    Seq::new(data.len(), |i: int| data[i]@)
}

impl View for AttributeValue {
    type V = AttributeView;

    open spec fn view(&self) -> AttributeView
        decreases self,
    {
        match self {
            AttributeValue::B(data) => AttributeView::B(data@),
            AttributeValue::Bool(truth) => AttributeView::Bool(*truth),
            AttributeValue::Bs(data) => AttributeView::Bs(blobs(data@)),
            AttributeValue::L(values) => AttributeView::L(
                Seq::new(
                    values@.len(),
                    |i: int|
                        if 0 <= i < values@.len() {
                            values@[i].view()
                        } else {
                            AttributeView::Unknown
                        },
                ),
            ),
            AttributeValue::M(item) => AttributeView::M(item.view()),
            AttributeValue::N(text) => AttributeView::N(text@),
            AttributeValue::Ns(numbers) => AttributeView::Ns(texts(numbers@)),
            AttributeValue::Null(truth) => AttributeView::Null(*truth),
            AttributeValue::S(text) => AttributeView::S(text@),
            AttributeValue::Ss(strings) => AttributeView::Ss(texts(strings@)),
            AttributeValue::Unknown => AttributeView::Unknown,
        }
    }
}

/// What an item is, as a mathematical value: a mapping from names to values.
pub type ItemView = Map<Seq<char>, AttributeView>;

/// One named attribute of an item.
#[derive(Debug, PartialEq, Eq)]
pub struct Attribute {
    pub name: String,
    pub value: AttributeValue,
}

/// The mapping from names to values that a list of attributes stands for.
/// Where a name occurs twice, the later attribute counts.
pub open spec fn item_of(entries: Seq<Attribute>) -> Map<Seq<char>, AttributeView>
    decreases entries,
{
    if entries.len() == 0 {
        Map::empty()
    } else {
        item_of(entries.drop_last()).insert(entries.last().name@, entries.last().value@)
    }
}

/// Whether no two attributes of the list have the same name.
pub open spec fn distinct_names(entries: Seq<Attribute>) -> bool {
    forall|i: int, j: int|
        0 <= i < j < entries.len() ==> (#[trigger] entries[i]).name@ != (#[trigger] entries[j]).name@
}

/// What a list stands for, step by step: nothing where it is empty, else what
/// its beginning stands for, with its last attribute put in.
pub proof fn lemma_item_of(entries: Seq<Attribute>)
    ensures
        entries.len() == 0 ==> item_of(entries) == Map::<Seq<char>, AttributeView>::empty(),
        entries.len() > 0 ==> item_of(entries) == item_of(entries.drop_last()).insert(
            entries.last().name@,
            entries.last().value@,
        ),
{
}

/// An attribute of a list without repeated names is found under its name.
pub proof fn lemma_item_lookup(entries: Seq<Attribute>, i: int)
    requires
        distinct_names(entries),
        0 <= i < entries.len(),
    ensures
        item_of(entries).contains_key(entries[i].name@),
        item_of(entries)[entries[i].name@] == entries[i].value@,
    decreases entries.len(),
{
    lemma_item_of(entries);
    if i < entries.len() - 1 {
        let rest = entries.drop_last();
        assert(rest[i] == entries[i]);
        assert(entries.last() == entries[entries.len() - 1]);
        assert forall|a: int, b: int| 0 <= a < b < rest.len() implies (#[trigger] rest[a]).name@
            != (#[trigger] rest[b]).name@ by {
            assert(rest[a] == entries[a] && rest[b] == entries[b]);
        }
        lemma_item_lookup(rest, i);
    }
}

/// A name that no attribute of the list has is not in the mapping.
pub proof fn lemma_item_absent(entries: Seq<Attribute>, name: Seq<char>)
    requires
        forall|i: int| 0 <= i < entries.len() ==> (#[trigger] entries[i]).name@ != name,
    ensures
        !item_of(entries).contains_key(name),
    decreases entries.len(),
{
    lemma_item_of(entries);
    if entries.len() > 0 {
        let rest = entries.drop_last();
        assert forall|i: int| 0 <= i < rest.len() implies (#[trigger] rest[i]).name@ != name by {
            assert(rest[i] == entries[i]);
        }
        lemma_item_absent(rest, name);
        assert(entries.last() == entries[entries.len() - 1]);
    }
}

/// Replacing an attribute by one of the same name replaces its value in the mapping.
pub proof fn lemma_item_replace(entries: Seq<Attribute>, i: int, entry: Attribute)
    requires
        0 <= i < entries.len(),
        entries[i].name@ == entry.name@,
        distinct_names(entries),
    ensures
        distinct_names(entries.update(i, entry)),
        item_of(entries.update(i, entry)) == item_of(entries).insert(entry.name@, entry.value@),
    decreases entries.len(),
{
    let changed = entries.update(i, entry);
    assert forall|a: int, b: int| 0 <= a < b < changed.len() implies (#[trigger] changed[a]).name@
        != (#[trigger] changed[b]).name@ by {
        assert(changed[a].name@ == entries[a].name@);
        assert(changed[b].name@ == entries[b].name@);
    }
    let rest = entries.drop_last();
    lemma_item_of(entries);
    lemma_item_of(changed);
    if i == entries.len() - 1 {
        assert(changed.drop_last() =~= rest);
        assert(item_of(changed) =~= item_of(entries).insert(entry.name@, entry.value@));
    } else {
        assert forall|a: int, b: int| 0 <= a < b < rest.len() implies (#[trigger] rest[a]).name@
            != (#[trigger] rest[b]).name@ by {
            assert(rest[a] == entries[a] && rest[b] == entries[b]);
        }
        assert(rest[i] == entries[i]);
        lemma_item_replace(rest, i, entry);
        assert(changed.drop_last() =~= rest.update(i, entry));
        assert(changed.last() == entries.last());
        assert(entries.last() == entries[entries.len() - 1]);
        assert(entries.last().name@ != entry.name@);
        assert(item_of(changed) =~= item_of(entries).insert(entry.name@, entry.value@));
    }
}

/// A list without repeated names stands for a mapping of as many names.
pub proof fn lemma_item_size(entries: Seq<Attribute>)
    requires
        distinct_names(entries),
    ensures
        item_of(entries).dom().finite(),
        item_of(entries).dom().len() == entries.len(),
    decreases entries.len(),
{
    lemma_item_of(entries);
    if entries.len() > 0 {
        let rest = entries.drop_last();
        assert forall|a: int, b: int| 0 <= a < b < rest.len() implies (#[trigger] rest[a]).name@
            != (#[trigger] rest[b]).name@ by {
            assert(rest[a] == entries[a] && rest[b] == entries[b]);
        }
        lemma_item_size(rest);
        assert forall|i: int| 0 <= i < rest.len() implies (#[trigger] rest[i]).name@
            != entries.last().name@ by {
            assert(rest[i] == entries[i]);
            assert(entries.last() == entries[entries.len() - 1]);
        }
        lemma_item_absent(rest, entries.last().name@);
        assert(item_of(entries).dom() =~= item_of(rest).dom().insert(entries.last().name@));
    }
}

/// An item: attributes under distinct names. With `==`, two items are equal
/// where they hold the same attributes in the same order of first insertion.
#[derive(Debug, PartialEq, Eq)]
pub struct Item {
    entries: Vec<Attribute>,
}

impl View for Item {
    type V = Map<Seq<char>, AttributeView>;

    closed spec fn view(&self) -> Map<Seq<char>, AttributeView>
        decreases self,
    {
        item_of(self.entries@)
    }
}

impl Item {
    #[verifier::type_invariant]
    spec fn well_formed(&self) -> bool {
        distinct_names(self.entries@)
    }

    /// An item without attributes.
    pub fn new() -> (item: Item)
        ensures
            item@ == Map::<Seq<char>, AttributeView>::empty(),
    {
        Item { entries: Vec::new() }
    }

    /// Puts `value` under `name`, in place of the value that was there, if any.
    pub fn insert(&mut self, name: String, value: AttributeValue)
        ensures
            final(self)@ == old(self)@.insert(name@, value@),
    {
        proof {
            use_type_invariant(&*self);
        }
        let mut i: usize = 0;
        while i < self.entries.len()
            invariant
                i <= self.entries.len(),
                self.entries == old(self).entries,
                distinct_names(self.entries@),
                forall|j: int| 0 <= j < i ==> (#[trigger] self.entries@[j]).name@ != name@,
            decreases self.entries.len() - i,
        {
            if self.entries[i].name == name {
                let entry = Attribute { name, value };
                proof {
                    lemma_item_replace(self.entries@, i as int, entry);
                }
                let mut entries: Vec<Attribute> = Vec::new();
                core::mem::swap(&mut self.entries, &mut entries);
                entries[i] = entry;
                self.entries = entries;
                return ;
            }
            i = i + 1;
        }
        let entry = Attribute { name, value };
        proof {
            let grown = self.entries@.push(entry);
            assert(grown.drop_last() =~= self.entries@);
            lemma_item_of(grown);
            assert forall|a: int, b: int| 0 <= a < b < grown.len() implies (#[trigger] grown[a]).name@
                != (#[trigger] grown[b]).name@ by {
                if b < self.entries@.len() {
                    assert(grown[a] == self.entries@[a] && grown[b] == self.entries@[b]);
                } else {
                    assert(grown[a] == self.entries@[a]);
                }
            }
        }
        let mut entries: Vec<Attribute> = Vec::new();
        core::mem::swap(&mut self.entries, &mut entries);
        entries.push(entry);
        self.entries = entries;
    }

    /// The value under `name`, if the item has one.
    pub fn get(&self, name: &str) -> (found: Option<&AttributeValue>)
        ensures
            match found {
                Some(value) => self@.contains_key(name@) && self@[name@] == value@,
                None => !self@.contains_key(name@),
            },
    {
        proof {
            use_type_invariant(self);
        }
        let wanted: String = name.to_owned();
        let mut i: usize = 0;
        while i < self.entries.len()
            invariant
                i <= self.entries.len(),
                wanted@ == name@,
                distinct_names(self.entries@),
                forall|j: int| 0 <= j < i ==> (#[trigger] self.entries@[j]).name@ != name@,
            decreases self.entries.len() - i,
        {
            if self.entries[i].name == wanted {
                proof {
                    lemma_item_lookup(self.entries@, i as int);
                }
                return Some(&self.entries[i].value);
            }
            i = i + 1;
        }
        proof {
            lemma_item_absent(self.entries@, name@);
        }
        None
    }

    /// The number of attributes.
    pub fn len(&self) -> (count: usize)
        ensures
            self@.dom().finite(),
            count == self@.dom().len(),
    {
        proof {
            use_type_invariant(self);
            lemma_item_size(self.entries@);
        }
        self.entries.len()
    }

    /// The attributes as a list: each name once, with its value.
    pub fn entries(&self) -> (entries: &Vec<Attribute>)
        ensures
            distinct_names(entries@),
            item_of(entries@) == self@,
    {
        proof {
            use_type_invariant(self);
        }
        &self.entries
    }

    /// Gives the attributes up as a list: each name once, with its value.
    pub fn into_entries(self) -> (entries: Vec<Attribute>)
        ensures
            distinct_names(entries@),
            item_of(entries@) == self@,
    {
        proof {
            use_type_invariant(&self);
        }
        self.entries
    }
}

/// The view of an item that may be missing.
pub open spec fn item_view(item: Option<Item>) -> Option<ItemView> {
    match item {
        Some(i) => Some(i@),
        None => None,
    }
}

/// A request to put one item into a table. It is not changed once built.
#[derive(Debug)]
pub struct PutRequest {
    item: Option<Item>,
}

impl View for PutRequest {
    type V = Option<ItemView>;

    closed spec fn view(&self) -> Option<ItemView> {
        item_view(self.item)
    }
}

impl PutRequest {
    /// The request to put `item`.
    pub fn new(item: Option<Item>) -> (request: PutRequest)
        ensures
            request@ == item_view(item),
    {
        PutRequest { item }
    }

    /// The item to put, if the request names one.
    pub fn item(&self) -> (item: Option<&Item>)
        ensures
            match item {
                Some(i) => self@ == Some(i@),
                None => self@ is None,
            },
    {
        self.item.as_ref()
    }

    /// Gives the item up.
    pub fn into_item(self) -> (item: Option<Item>)
        ensures
            item_view(item) == self@,
    {
        self.item
    }
}

/// A request to delete the item with a given key from a table. It is not
/// changed once built.
#[derive(Debug)]
pub struct DeleteRequest {
    key: Option<Item>,
}

impl View for DeleteRequest {
    type V = Option<ItemView>;

    closed spec fn view(&self) -> Option<ItemView> {
        item_view(self.key)
    }
}

impl DeleteRequest {
    /// The request to delete the item with `key`.
    pub fn new(key: Option<Item>) -> (request: DeleteRequest)
        ensures
            request@ == item_view(key),
    {
        DeleteRequest { key }
    }

    /// The key of the item to delete, if the request names one.
    pub fn key(&self) -> (key: Option<&Item>)
        ensures
            match key {
                Some(k) => self@ == Some(k@),
                None => self@ is None,
            },
    {
        self.key.as_ref()
    }

    /// Gives the key up.
    pub fn into_key(self) -> (key: Option<Item>)
        ensures
            item_view(key) == self@,
    {
        self.key
    }
}

/// What a [`WriteRequest`] is, as a mathematical value: the put and the
/// delete that it carries, each by the item that it names, if it names one.
pub struct WriteView {
    pub put: Option<Option<ItemView>>,
    pub delete: Option<Option<ItemView>>,
}

impl WriteView {
    /// The write operation that puts `item` and deletes nothing.
    pub open spec fn put(item: ItemView) -> WriteView {
        WriteView { put: Some(Some(item)), delete: None }
    }
}

/// One write operation of a batch: a put, a delete, or, as the store's
/// requests allow, both or neither.
#[derive(Debug)]
pub struct WriteRequest {
    put_request: Option<PutRequest>,
    delete_request: Option<DeleteRequest>,
}

impl View for WriteRequest {
    type V = WriteView;

    closed spec fn view(&self) -> WriteView {
        WriteView {
            put: match self.put_request {
                Some(request) => Some(request@),
                None => None,
            },
            delete: match self.delete_request {
                Some(request) => Some(request@),
                None => None,
            },
        }
    }
}

impl WriteRequest {
    /// The write operation that carries the given put and the given delete.
    pub fn new(put_request: Option<PutRequest>, delete_request: Option<DeleteRequest>) -> (request:
        WriteRequest)
        ensures
            request@.put == match put_request {
                Some(put) => Some(put@),
                None => None,
            },
            request@.delete == match delete_request {
                Some(delete) => Some(delete@),
                None => None,
            },
    {
        WriteRequest { put_request, delete_request }
    }

    /// The write operation that carries out `put_request` and nothing else.
    pub fn put(put_request: PutRequest) -> (request: WriteRequest)
        ensures
            request@ == (WriteView { put: Some(put_request@), delete: None }),
    {
        WriteRequest { put_request: Some(put_request), delete_request: None }
    }

    /// The write operation that carries out `delete_request` and nothing else.
    pub fn delete(delete_request: DeleteRequest) -> (request: WriteRequest)
        ensures
            request@ == (WriteView { put: None, delete: Some(delete_request@) }),
    {
        WriteRequest { put_request: None, delete_request: Some(delete_request) }
    }

    /// The put that this operation carries out, if any.
    pub fn put_request(&self) -> (put_request: Option<&PutRequest>)
        ensures
            match put_request {
                Some(put) => self@.put == Some(put@),
                None => self@.put is None,
            },
    {
        self.put_request.as_ref()
    }

    /// The delete that this operation carries out, if any.
    pub fn delete_request(&self) -> (delete_request: Option<&DeleteRequest>)
        ensures
            match delete_request {
                Some(delete) => self@.delete == Some(delete@),
                None => self@.delete is None,
            },
    {
        self.delete_request.as_ref()
    }
}

/// What a list of write operations is, operation by operation.
pub open spec fn writes_of(ops: Seq<WriteRequest>) -> Seq<WriteView> {
    Seq::new(ops.len(), |i: int| ops[i]@)
}

} // verus!

//! The production catalog: the entries that promotion creates, the media
//! host that gives each image a durable address, and the store that holds the
//! entries under unique identifiers.

use crate::submission::{clone_opt, opt_view};
use vstd::prelude::*;
use vstd::string::StringExecFns;

verus! {

/// The mathematical content of a catalog entry, in each form it takes.
pub struct FumoView {
    pub id: Seq<char>,
    pub caption: Option<Seq<char>>,
    pub image_url: Seq<char>,
    pub source: Option<Seq<char>>,
    pub credit: Option<Seq<char>>,
    pub featured: Option<Seq<char>>,
}

/// An entry on its way into the catalog or out of it.
#[derive(Clone, Debug, PartialEq, Eq)]
pub struct Fumo {
    pub _id: String,
    pub caption: Option<String>,
    pub image: String,
    pub source: Option<String>,
    pub credit: Option<String>,
    pub featured: Option<String>,
}

impl View for Fumo {
    type V = FumoView;

    open spec fn view(&self) -> FumoView {
        FumoView {
            id: self._id@,
            caption: opt_view(self.caption),
            image_url: self.image@,
            source: opt_view(self.source),
            credit: opt_view(self.credit),
            featured: opt_view(self.featured),
        }
    }
}

/// An entry as the content service answers with it.
#[derive(Clone, Debug, PartialEq, Eq)]
pub struct APIFumo {
    pub _id: String,
    pub caption: Option<String>,
    pub url: String,
    pub source: Option<String>,
    pub credit: Option<String>,
    pub featured: Option<String>,
}

impl View for APIFumo {
    type V = FumoView;

    open spec fn view(&self) -> FumoView {
        FumoView {
            id: self._id@,
            caption: opt_view(self.caption),
            image_url: self.url@,
            source: opt_view(self.source),
            credit: opt_view(self.credit),
            featured: opt_view(self.featured),
        }
    }
}

/// An entry as the catalog holds it.
#[derive(Debug, PartialEq, Eq)]
pub struct FumoDoc {
    _id: String,
    caption: Option<String>,
    image_url: String,
    source: Option<String>,
    credit: Option<String>,
    featured: Option<String>,
}

impl View for FumoDoc {
    type V = FumoView;

    closed spec fn view(&self) -> FumoView {
        FumoView {
            id: self._id@,
            caption: opt_view(self.caption),
            image_url: self.image_url@,
            source: opt_view(self.source),
            credit: opt_view(self.credit),
            featured: opt_view(self.featured),
        }
    }
}

impl Clone for FumoDoc {
    fn clone(&self) -> (r: FumoDoc)
        ensures
            r@ == self@,
    {
        FumoDoc {
            _id: self._id.clone(),
            caption: clone_opt(&self.caption),
            image_url: self.image_url.clone(),
            source: clone_opt(&self.source),
            credit: clone_opt(&self.credit),
            featured: clone_opt(&self.featured),
        }
    }
}

impl FumoDoc {
    pub fn new(
        id: String,
        caption: Option<String>,
        image_url: String,
        source: Option<String>,
        credit: Option<String>,
        featured: Option<String>,
    ) -> (r: FumoDoc)
        ensures
            r@ == (FumoView {
                id: id@,
                caption: opt_view(caption),
                image_url: image_url@,
                source: opt_view(source),
                credit: opt_view(credit),
                featured: opt_view(featured),
            }),
    {
        FumoDoc { _id: id, caption, image_url, source, credit, featured }
    }

    pub fn id(&self) -> (r: &String)
        ensures
            r@ == self@.id,
    {
        &self._id
    }

    pub fn caption(&self) -> (r: &Option<String>)
        ensures
            opt_view(*r) == self@.caption,
    {
        &self.caption
    }

    pub fn image_url(&self) -> (r: &String)
        ensures
            r@ == self@.image_url,
    {
        &self.image_url
    }

    pub fn source(&self) -> (r: &Option<String>)
        ensures
            opt_view(*r) == self@.source,
    {
        &self.source
    }

    pub fn credit(&self) -> (r: &Option<String>)
        ensures
            opt_view(*r) == self@.credit,
    {
        &self.credit
    }

    pub fn featured(&self) -> (r: &Option<String>)
        ensures
            opt_view(*r) == self@.featured,
    {
        &self.featured
    }

    /// The entry in the form in which it travels.
    pub fn to_fumo(&self) -> (r: Fumo)
        ensures
            r@ == self@,
    {
        Fumo {
            _id: self._id.clone(),
            caption: clone_opt(&self.caption),
            image: self.image_url.clone(),
            source: clone_opt(&self.source),
            credit: clone_opt(&self.credit),
            featured: clone_opt(&self.featured),
        }
    }
}

/// The plushie that every entry of the content service is shown with.
pub open spec fn shown_plushie() -> Seq<char> {
    "Reimu"@
}

/// Turns an answer of the content service into an entry to show. The
/// service's own `featured` is replaced by the plushie the bot shows.
pub fn fumo_from_api(fumo: APIFumo) -> (r: Fumo)
    ensures
        r@ == (FumoView { featured: Some(shown_plushie()), ..fumo@ }),
{
    Fumo {
        _id: fumo._id,
        caption: fumo.caption,
        image: fumo.url,
        source: fumo.source,
        credit: fumo.credit,
        featured: Some(String::from_str("Reimu")),
    }
}

/// The media host could not take an image.
#[derive(Clone, Copy, Debug, PartialEq, Eq, Structural)]
pub struct UploadError;

/// Why an entry did not enter the catalog.
#[derive(Clone, Copy, Debug, PartialEq, Eq, Structural)]
pub enum CatalogError {
    /// The image has no durable address: the media host failed.
    UploadFailed,
    /// The catalog already holds an entry under this identifier.
    AlreadyInserted,
}

/// The durable address under which the media host serves an image.
pub open spec fn cdn_url(source_url: Seq<char>) -> Seq<char> {
    "https://cdn.nosesisaid.com/1234.png"@
}

/// Hands an image to the media host and returns its durable address.
pub fn upload_to_nosesisaid_cdn(image: &String) -> (r: Result<String, UploadError>)
    ensures
        r matches Ok(url) && url@ == cdn_url(image@),
{
    Ok(String::from_str("https://cdn.nosesisaid.com/1234.png"))
}

/// Whether some entry of `c` goes by `id`.
pub open spec fn has_entry(c: Seq<FumoView>, id: Seq<char>) -> bool {
    exists|i: int| 0 <= i < c.len() && (#[trigger] c[i]).id == id
}

/// No two entries share an identifier.
pub open spec fn entry_ids_unique(c: Seq<FumoView>) -> bool {
    forall|i: int, j: int| 0 <= i < j < c.len() ==> (#[trigger] c[i]).id != (#[trigger] c[j]).id
}

/// The catalog after an attempt to insert `entry`: it is appended unless its
/// identifier is taken, in which case nothing changes.
pub open spec fn insert_entry(c: Seq<FumoView>, entry: FumoView) -> Seq<FumoView> {
    if has_entry(c, entry.id) {
        c
    } else {
        c.push(entry)
    }
}

/// The outcome of inserting `fumo` once the media host has answered.
pub open spec fn insert_outcome(
    c: Seq<FumoView>,
    fumo: FumoView,
    upload: Result<Seq<char>, UploadError>,
) -> Result<(), CatalogError> {
    match upload {
        Err(_) => Err(CatalogError::UploadFailed),
        Ok(_) => if has_entry(c, fumo.id) {
            Err(CatalogError::AlreadyInserted)
        } else {
            Ok(())
        },
    }
}

/// The catalog after inserting `fumo` once the media host has answered: on a
/// failed upload nothing changes, else the entry goes in under the durable
/// address unless its identifier is taken.
pub open spec fn insert_uploaded(
    c: Seq<FumoView>,
    fumo: FumoView,
    upload: Result<Seq<char>, UploadError>,
) -> Seq<FumoView> {
    match upload {
        Err(_) => c,
        Ok(url) => insert_entry(c, FumoView { image_url: url, ..fumo }),
    }
}

/// The view of what the media host answered.
pub open spec fn upload_view(upload: Result<String, UploadError>) -> Result<
    Seq<char>,
    UploadError,
> {
    match upload {
        Ok(url) => Ok(url@),
        Err(e) => Err(e),
    }
}

/// The collection of production entries, each under its own identifier, in
/// the order in which they were inserted.
#[derive(Debug)]
pub struct CatalogStore {
    entries: Vec<FumoDoc>,
}

impl View for CatalogStore {
    type V = Seq<FumoView>;

    closed spec fn view(&self) -> Seq<FumoView> {
        self.entries@.map_values(|e: FumoDoc| e@)
    }
}

impl CatalogStore {
    /// The store's invariant: identifiers are unique.
    #[verifier::type_invariant]
    pub open spec fn wf(&self) -> bool {
        entry_ids_unique(self@)
    }

    pub fn new() -> (r: CatalogStore)
        ensures
            r@ == Seq::<FumoView>::empty(),
            r.wf(),
    {
        let r = CatalogStore { entries: Vec::new() };
        assert(r@ =~= Seq::<FumoView>::empty());
        r
    }

    pub fn len(&self) -> (n: usize)
        ensures
            n == self@.len(),
    {
        self.entries.len()
    }

    /// The entry at position `i`, in insertion order.
    pub fn entry_at(&self, i: usize) -> (r: Option<&FumoDoc>)
        ensures
            r is Some <==> i < self@.len(),
            r matches Some(e) ==> e@ == self@[i as int],
    {
        if i < self.entries.len() {
            Some(&self.entries[i])
        } else {
            None
        }
    }

    fn position(&self, id: &String) -> (r: Option<usize>)
        ensures
            r is Some <==> has_entry(self@, id@),
            r matches Some(i) ==> i < self@.len() && self@[i as int].id == id@,
    {
        let mut i: usize = 0;
        while i < self.entries.len()
            invariant
                i <= self.entries.len(),
                forall|j: int| 0 <= j < i ==> (#[trigger] self@[j]).id != id@,
            decreases self.entries.len() - i,
        {
            if *self.entries[i].id() == *id {
                return Some(i);
            }
            i += 1;
        }
        None
    }

    /// Whether an entry goes by `id`.
    pub fn contains(&self, id: &String) -> (r: bool)
        ensures
            r == has_entry(self@, id@),
    {
        self.position(id).is_some()
    }

    /// The entry that goes by `id`.
    pub fn get(&self, id: &String) -> (r: Option<&FumoDoc>)
        ensures
            r is Some <==> has_entry(self@, id@),
            r matches Some(e) ==> e@.id == id@ && self@.contains(e@),
    {
        match self.position(id) {
            Some(i) => {
                assert(self@[i as int] == self.entries[i as int]@);
                Some(&self.entries[i])
            },
            None => None,
        }
    }

    /// Inserts `entry` unless its identifier is taken. Says whether it did.
    pub fn insert(&mut self, entry: FumoDoc) -> (inserted: bool)
        ensures
            final(self).wf(),
            inserted == !has_entry(old(self)@, entry@.id),
            final(self)@ == insert_entry(old(self)@, entry@),
    {
        proof {
            use_type_invariant(&*self);
        }
        if self.position(entry.id()).is_some() {
            false
        } else {
            let ghost before = self@;
            let ghost e = entry@;
            let mut entries: Vec<FumoDoc> = Vec::new();
            core::mem::swap(&mut self.entries, &mut entries);
            assert(self@ =~= Seq::<FumoView>::empty());
            entries.push(entry);
            assert(entries@.map_values(|e: FumoDoc| e@) =~= before.push(e));
            core::mem::swap(&mut self.entries, &mut entries);
            true
        }
    }

    /// Inserts `fumo` under the address that the media host answered with.
    /// A failed upload and a taken identifier both leave the catalog as it
    /// was, and each is reported as its own error.
    pub fn insert_uploaded(
        &mut self,
        fumo: Fumo,
        upload: Result<String, UploadError>,
    ) -> (r: Result<(), CatalogError>)
        ensures
            final(self).wf(),
            r == insert_outcome(old(self)@, fumo@, upload_view(upload)),
            final(self)@ == insert_uploaded(old(self)@, fumo@, upload_view(upload)),
    {
        proof {
            use_type_invariant(&*self);
        }
        match upload {
            Err(_) => Err(CatalogError::UploadFailed),
            Ok(url) => {
                let entry = FumoDoc::new(
                    fumo._id,
                    fumo.caption,
                    url,
                    fumo.source,
                    fumo.credit,
                    fumo.featured,
                );
                if self.insert(entry) {
                    Ok(())
                } else {
                    Err(CatalogError::AlreadyInserted)
                }
            },
        }
    }
}

/// Uploads the image of `fumo` to the media host and inserts the entry into
/// the catalog under the durable address.
pub fn add_fumo_to_db(fumos_collection: &mut CatalogStore, fumo: Fumo) -> (r: Result<
    (),
    CatalogError,
>)
    ensures
        final(fumos_collection).wf(),
        r == insert_outcome(old(fumos_collection)@, fumo@, Ok(cdn_url(fumo@.image_url))),
        final(fumos_collection)@ == insert_uploaded(
            old(fumos_collection)@,
            fumo@,
            Ok(cdn_url(fumo@.image_url)),
        ),
{
    let upload = upload_to_nosesisaid_cdn(&fumo.image);
    fumos_collection.insert_uploaded(fumo, upload)
}

impl Clone for CatalogStore {
    fn clone(&self) -> (r: CatalogStore)
        ensures
            r@ == self@,
    {
        proof {
            use_type_invariant(self);
        }
        let mut entries: Vec<FumoDoc> = Vec::new();
        let mut i: usize = 0;
        while i < self.entries.len()
            invariant
                i <= self.entries.len(),
                entries@.map_values(|e: FumoDoc| e@) == self@.take(i as int),
            decreases self.entries.len() - i,
        {
            let ghost sofar = entries@.map_values(|e: FumoDoc| e@);
            let copy = self.entries[i].clone();
            entries.push(copy);
            assert(entries@.map_values(|e: FumoDoc| e@) =~= sofar.push(self@[i as int]));
            assert(self@.take(i + 1) =~= self@.take(i as int).push(self@[i as int]));
            i += 1;
        }
        assert(self@.take(i as int) =~= self@);
        CatalogStore { entries }
    }
}

} // verus!

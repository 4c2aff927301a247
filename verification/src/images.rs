//! Image records: the metadata the server lists for an entity's images, and
//! the fetched image itself, carried as raw bytes for an outside decoder.
use vstd::prelude::*;

verus! {

/// Metadata for one image of an entity, as the server lists it.
pub struct ImageDetails {
    pub id: i32,
    pub name: String,
    pub true_name: String,
    pub username: String,
    /// `Some(path)` when the image was added locally in this program session.
    pub local_image: Option<String>,
}

impl Clone for ImageDetails {
    fn clone(&self) -> (r: Self)
        ensures
            r == *self,
    {
        ImageDetails {
            id: self.id,
            name: self.name.clone(),
            true_name: self.true_name.clone(),
            username: self.username.clone(),
            local_image: match &self.local_image {
                Some(s) => Some(s.clone()),
                None => None,
            },
        }
    }
}

/// One image of an entity: its name, its metadata once listed, and the raw
/// image bytes once fetched. Decoding the bytes is an outside concern.
pub struct Imager {
    name: String,
    image_details: Option<ImageDetails>,
    image: Option<Vec<u8>>,
}

impl Imager {
    pub closed spec fn spec_name(self) -> Seq<char> {
        self.name@
    }

    pub closed spec fn spec_details(self) -> Option<ImageDetails> {
        self.image_details
    }

    pub closed spec fn spec_image(self) -> Option<Vec<u8>> {
        self.image
    }

    pub fn default() -> (r: Imager)
        ensures
            r.spec_name() == Seq::<char>::empty(),
            r.spec_details() is None,
            r.spec_image() is None,
    {
        Imager { name: String::new(), image_details: None, image: None }
    }

    pub fn new(name: String, image_details: Option<ImageDetails>, image: Option<Vec<u8>>) -> (r:
        Imager)
        ensures
            r.spec_name() == name@,
            r.spec_details() == image_details,
            r.spec_image() == image,
    {
        Imager { name, image_details, image }
    }

    pub fn get_name(&self) -> (r: String)
        ensures
            r@ == self.spec_name(),
    {
        self.name.clone()
    }

    pub fn image_details_ref(&self) -> (r: Option<&ImageDetails>)
        ensures
            match r {
                Some(d) => self.spec_details() == Some(*d),
                None => self.spec_details() is None,
            },
    {
        self.image_details.as_ref()
    }

    pub fn image_ref(&self) -> (r: Option<&Vec<u8>>)
        ensures
            match r {
                Some(b) => self.spec_image() == Some(*b),
                None => self.spec_image() is None,
            },
    {
        self.image.as_ref()
    }
}

impl Default for Imager {
    fn default() -> (r: Imager)
        ensures
            r.spec_name() == Seq::<char>::empty(),
            r.spec_details() is None,
            r.spec_image() is None,
    {
        Imager { name: String::new(), image_details: None, image: None }
    }
}

} // verus!

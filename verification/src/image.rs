use vstd::prelude::*;

verus! {

/// An image record: a URL and a title. Both are held as bytes (UTF-8 when
/// they come from text); the codec and the address derivation work on the
/// bytes alone, so any byte string round-trips, including empty ones and
/// ones holding null or control bytes.
#[derive(Debug)]
pub struct Image {
    pub url: Vec<u8>,
    pub title: Vec<u8>,
}

/// The mathematical content of an `Image`: its two byte strings.
pub struct ImageView {
    pub url: Seq<u8>,
    pub title: Seq<u8>,
}

impl View for Image {
    type V = ImageView;

    open spec fn view(&self) -> ImageView {
        ImageView { url: self.url@, title: self.title@ }
    }
}

} // verus!

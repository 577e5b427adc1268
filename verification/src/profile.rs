//! The slice of a user's profile the front end shows.

use vstd::prelude::*;

verus! {

/// A profile image by its URL.
pub struct Image {
    pub url: String,
}

/// What the profile lookup returns about the current user.
pub struct UserInfo {
    pub display_name: String,
    pub images: Vec<Image>,
}

/// The URL of the profile image to show: the first image, or empty when
/// the profile carries none.
pub fn primary_image_url(info: &UserInfo) -> (r: String)
    ensures
        info.images@.len() > 0 ==> r@ == info.images@[0].url@,
        info.images@.len() == 0 ==> r@ == Seq::<char>::empty(),
{
    if info.images.len() > 0 {
        info.images[0].url.clone()
    } else {
        String::new()
    }
}

} // verus!

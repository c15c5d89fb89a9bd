//! Program images and the handle under which state machines share them.

use std::sync::Arc;
use vstd::prelude::*;

verus! {

/// `pio::Program`: an assembled instruction image. The library carries it
/// through and never looks inside.
#[verifier::external_type_specification]
#[verifier::external_body]
pub struct ExProgram<const PROGRAM_SIZE: usize>(::pio::Program<PROGRAM_SIZE>);

/// Calls `Arc::clone`.
///
/// Trusted: the contract says that the new pointer refers to the value the
/// old one refers to.
#[verifier::external_body]
fn share_image(image: &Arc<::pio::Program<32>>) -> (shared: Arc<::pio::Program<32>>)
    ensures
        shared == *image,
{
    Arc::clone(image)
}

/// A program image installed on a block.
///
/// State machines that run the same program hold handles to one image; the
/// image is freed when the last handle goes.
#[derive(Debug)]
pub struct InstalledProgram {
    image: Arc<::pio::Program<32>>,
}

impl InstalledProgram {
    /// The program image behind this handle.
    pub closed spec fn view(&self) -> ::pio::Program<32> {
        *self.image
    }

    /// Takes `program` as the image of a new installation.
    pub fn new(program: ::pio::Program<32>) -> (installed: InstalledProgram)
        ensures
            installed@ == program,
    {
        InstalledProgram { image: Arc::new(program) }
    }

    /// Another handle to the same image.
    pub fn share(&self) -> (shared: InstalledProgram)
        ensures
            shared@ == self@,
    {
        InstalledProgram { image: share_image(&self.image) }
    }

    /// The image itself, for whoever loads it into instruction memory.
    pub fn image(&self) -> (image: &::pio::Program<32>)
        ensures
            *image == self@,
    {
        &*self.image
    }
}

} // verus!

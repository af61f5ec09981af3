//! Loading a program image: size checking and padding, ahead of
//! initialization. Reading the bytes from storage is the host's concern.

use vstd::prelude::*;

verus! {

/// The load-time failure: the program bytes exceed the 3584 bytes of
/// memory available above 0x200.
#[derive(Clone, Copy, Debug, PartialEq, Eq, Structural)]
pub enum LoadError {
    /// The image is `size` bytes, more than 3584.
    TooLarge { size: usize },
}

/// Turn raw program bytes into the fixed-size image that initialization
/// consumes: the bytes verbatim, zero-padded to 3584. Rejects anything
/// longer, before any execution begins.
pub fn load_image(bytes: &Vec<u8>) -> (r: Result<[u8; 3584], LoadError>)
    ensures
        match r {
            Ok(img) => {
                &&& bytes@.len() <= 3584
                &&& forall|j: int| 0 <= j < bytes@.len() ==> img@[j] == bytes@[j]
                &&& forall|j: int| bytes@.len() <= j < 3584 ==> img@[j] == 0u8
            },
            Err(e) => {
                &&& bytes@.len() > 3584
                &&& e == (LoadError::TooLarge { size: bytes@.len() as usize })
            },
        },
{
    if bytes.len() > 3584 {
        return Err(LoadError::TooLarge { size: bytes.len() });
    }
    let mut img: [u8; 3584] = [0u8; 3584];
    let mut k: usize = 0;
    while k < bytes.len()
        invariant
            k <= bytes@.len() <= 3584,
            forall|j: int| 0 <= j < k ==> img@[j] == bytes@[j],
            forall|j: int| k <= j < 3584 ==> img@[j] == 0u8,
        decreases bytes@.len() - k,
    {
        img[k] = bytes[k];
        k = k + 1;
    }
    Ok(img)
}

} // verus!

//! `image_buffer`: write pixels of an image held by the client.
use vstd::prelude::*;
use crate::implementation::{RunAgain, RUN_AGAIN};
use crate::json::{JsonValue, JsonModel, number_as_u64, lemma_values_model};
use crate::json_serde::{json_text, json_text_of};

verus! {

/// A command from the runtime to the client.
#[derive(Debug, PartialEq)]
pub enum Command {
    /// Write the pixel at (x, y) with the colour (r, g, b) into an image of size
    /// (width, height) held in the named file.
    PixelWrite((u32, u32), (u8, u8, u8), (u32, u32), String),
}

/// The `image_buffer` function, which writes pixels through the client.
#[derive(Debug)]
pub struct ImageBuffer;

/// The `i`-th element of an array value, as an unsigned integer, when it is one.
pub open spec fn element_u64(v: JsonModel, i: int) -> Option<u64> {
    match v {
        JsonModel::Array(a) => if 0 <= i < a.len() {
            match a[i] {
                JsonModel::Number(n) => number_as_u64(n),
                _ => None,
            }
        } else {
            None
        },
        _ => None,
    }
}

/// The first `n` elements of an array value are unsigned integers.
pub open spec fn has_u64_elements(v: JsonModel, n: int) -> bool {
    forall|i: int| 0 <= i < n ==> #[trigger] element_u64(v, i) is Some
}

fn element(v: &JsonValue, i: usize) -> (r: u64)
    requires
        element_u64(v@, i as int) is Some,
    ensures
        r == element_u64(v@, i as int)->0,
{
    let a = v.as_array().unwrap();
    proof {
        lemma_values_model(a@);
    }
    a[i].as_u64().unwrap()
}

impl ImageBuffer {
    /// The command that writes a pixel: the coordinates in the first input, the colour in the
    /// second and the size of the image in the third, each an array of unsigned integers
    /// truncated to their width; the file name is the JSON text of the fourth input.
    pub fn command(&self, inputs: &[JsonValue]) -> (c: Command)
        requires
            inputs@.len() >= 4,
            has_u64_elements(inputs@[0]@, 2),
            has_u64_elements(inputs@[1]@, 3),
            has_u64_elements(inputs@[2]@, 2),
        ensures
            c matches Command::PixelWrite(pixel, colour, size, filename) && pixel == (
                element_u64(inputs@[0]@, 0)->0 as u32,
                element_u64(inputs@[0]@, 1)->0 as u32,
            ) && colour == (
                element_u64(inputs@[1]@, 0)->0 as u8,
                element_u64(inputs@[1]@, 1)->0 as u8,
                element_u64(inputs@[1]@, 2)->0 as u8,
            ) && size == (
                element_u64(inputs@[2]@, 0)->0 as u32,
                element_u64(inputs@[2]@, 1)->0 as u32,
            ) && filename@ == json_text_of(inputs@[3]@),
    {
        assert(element_u64(inputs@[0]@, 0) is Some);
        assert(element_u64(inputs@[0]@, 1) is Some);
        assert(element_u64(inputs@[1]@, 0) is Some);
        assert(element_u64(inputs@[1]@, 1) is Some);
        assert(element_u64(inputs@[1]@, 2) is Some);
        assert(element_u64(inputs@[2]@, 0) is Some);
        assert(element_u64(inputs@[2]@, 1) is Some);
        let pixel = &inputs[0];
        let value = &inputs[1];
        let size = &inputs[2];
        let filename = json_text(&inputs[3]);
        Command::PixelWrite(
            (element(pixel, 0) as u32, element(pixel, 1) as u32),
            (element(value, 0) as u8, element(value, 1) as u8, element(value, 2) as u8),
            (element(size, 0) as u32, element(size, 1) as u32),
            filename,
        )
    }

    /// What the function returns once the command has been sent, whatever the reply:
    /// no output, and it may run again.
    pub fn run_result(&self) -> (r: (Option<JsonValue>, RunAgain))
        ensures
            r.0 is None,
            r.1 == RUN_AGAIN,
    {
        (None, RUN_AGAIN)
    }
}

} // verus!

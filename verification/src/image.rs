//! Image geometry and the plain-text pixel stream.

use crate::decimal::{decimal, push_decimal};
use crate::pixel::Color;
use vstd::prelude::*;
use vstd::string::StringExecFns;

verus! {

/// The width of an image where none is asked for.
pub const DEFAULT_WIDTH: u32 = 400;

/// A ratio of an image's width to its height, as a fraction.
#[derive(Debug, Copy, Clone, PartialEq, Eq, Structural)]
pub struct AspectRatio {
    pub width: u32,
    pub height: u32,
}

impl Default for AspectRatio {
    /// Sixteen to nine.
    fn default() -> (ratio: Self)
        ensures
            ratio == (AspectRatio { width: 16, height: 9 }),
    {
        AspectRatio { width: 16, height: 9 }
    }
}

/// Why no image has the geometry that was asked for.
#[derive(Debug, Copy, Clone, PartialEq, Eq, Structural)]
pub enum GeometryError {
    /// The image would have no column.
    ZeroWidth,
    /// A term of the aspect ratio is zero.
    ZeroAspect,
    /// The number of rows does not fit in 32 bits.
    TooTall,
}

/// Why a list of pixels is not an image's stream.
#[derive(Debug, Copy, Clone, PartialEq, Eq, Structural)]
pub enum StreamError {
    /// The list does not hold one pixel for each cell of the image.
    PixelCount,
}

/// The number of rows of an image of `width` columns in the ratio `aspect`:
/// the width divided by the ratio, rounded down, and at least one.
pub open spec fn rows_for(width: nat, aspect: AspectRatio) -> nat
    recommends
        aspect.width > 0,
{
    let rows = (width * aspect.height) / (aspect.width as int);
    if rows < 1 {
        1
    } else {
        rows as nat
    }
}

/// The first three lines of a stream of `width` columns and `height` rows:
/// the format's tag, the two dimensions, and the greatest channel value.
pub open spec fn header_text(width: nat, height: nat) -> Seq<char> {
    seq!['P', '3', '\n'] + decimal(width) + seq![' '] + decimal(height) + seq![
        '\n',
        '2',
        '5',
        '5',
        '\n',
    ]
}

/// The lines of the pixels in the order of the list, each with its line end.
pub open spec fn pixel_lines(pixels: Seq<Color>) -> Seq<char>
    decreases pixels.len(),
{
    if pixels.len() == 0 {
        Seq::empty()
    } else {
        pixel_lines(pixels.drop_last()) + pixels.last().text() + seq!['\n']
    }
}

/// The dimensions of a raster image, in pixels.
#[derive(Debug, Copy, Clone, PartialEq, Eq, Structural)]
pub struct Image {
    pub width: u32,
    pub height: u32,
}

impl Image {
    /// An image has at least one column and one row.
    pub open spec fn wf(self) -> bool {
        self.width > 0 && self.height > 0
    }

    /// The number of pixels.
    pub open spec fn area(self) -> nat {
        (self.height * self.width) as nat
    }

    /// The place in row-major order of the pixel in `row` and `column`.
    pub open spec fn index_of(self, row: int, column: int) -> int {
        row * self.width + column
    }

    /// The whole stream of the image with the given pixels.
    pub open spec fn stream_text(self, pixels: Seq<Color>) -> Seq<char> {
        header_text(self.width as nat, self.height as nat) + pixel_lines(pixels)
    }

    /// The image of `width` columns whose height follows from the aspect ratio.
    pub fn with_aspect(width: u32, aspect: AspectRatio) -> (made: Result<Image, GeometryError>)
        ensures
            width == 0 ==> made == Err::<Image, GeometryError>(GeometryError::ZeroWidth),
            width > 0 && (aspect.width == 0 || aspect.height == 0) ==> made == Err::<
                Image,
                GeometryError,
            >(GeometryError::ZeroAspect),
            width > 0 && aspect.width > 0 && aspect.height > 0 && rows_for(width as nat, aspect)
                > u32::MAX ==> made == Err::<Image, GeometryError>(GeometryError::TooTall),
            width > 0 && aspect.width > 0 && aspect.height > 0 && rows_for(width as nat, aspect)
                <= u32::MAX ==> made == Ok::<Image, GeometryError>(
                Image { width, height: rows_for(width as nat, aspect) as u32 },
            ),
            made is Ok ==> made->Ok_0.wf(),
    {
        if width == 0 {
            return Err(GeometryError::ZeroWidth);
        }
        if aspect.width == 0 || aspect.height == 0 {
            return Err(GeometryError::ZeroAspect);
        }
        assert(width * aspect.height <= u64::MAX) by (nonlinear_arith)
            requires
                width <= u32::MAX,
                aspect.height <= u32::MAX,
        ;
        let scaled: u64 = (width as u64) * (aspect.height as u64);
        let quotient: u64 = scaled / (aspect.width as u64);
        let rows: u64 = if quotient < 1 {
            1
        } else {
            quotient
        };
        if rows > u32::MAX as u64 {
            return Err(GeometryError::TooTall);
        }
        Ok(Image { width, height: rows as u32 })
    }

    /// Writes the stream's header.
    pub fn header(&self) -> (text: String)
        ensures
            text@ == header_text(self.width as nat, self.height as nat),
    {
        proof {
            reveal_strlit("P3\n");
            reveal_strlit(" ");
            reveal_strlit("\n255\n");
        }
        let mut text = String::from_str("P3\n");
        push_decimal(&mut text, self.width);
        text.append(" ");
        push_decimal(&mut text, self.height);
        text.append("\n255\n");
        assert(text@ =~= header_text(self.width as nat, self.height as nat));
        text
    }

    /// Colours every pixel by one call of `shade` on its row and column, and
    /// lists the pixels row by row from the top, each row from the left.
    pub fn raster<F: Fn(u32, u32) -> Color>(&self, shade: F) -> (pixels: Vec<Color>)
        requires
            forall|row: u32, column: u32|
                row < self.height && column < self.width ==> call_requires(shade, (row, column)),
        ensures
            pixels@.len() == self.area(),
            forall|row: u32, column: u32|
                row < self.height && column < self.width ==> call_ensures(
                    shade,
                    (row, column),
                    #[trigger] pixels@[self.index_of(row as int, column as int)],
                ),
    {
        let mut pixels: Vec<Color> = Vec::new();
        let mut row: u32 = 0;
        while row < self.height
            invariant
                row <= self.height,
                pixels@.len() == row * self.width,
                forall|r: u32, c: u32|
                    r < self.height && c < self.width ==> call_requires(shade, (r, c)),
                forall|r: u32, c: u32|
                    r < row && c < self.width ==> call_ensures(
                        shade,
                        (r, c),
                        #[trigger] pixels@[self.index_of(r as int, c as int)],
                    ),
            decreases self.height - row,
        {
            let mut column: u32 = 0;
            while column < self.width
                invariant
                    row < self.height,
                    column <= self.width,
                    pixels@.len() == row * self.width + column,
                    forall|r: u32, c: u32|
                        r < self.height && c < self.width ==> call_requires(shade, (r, c)),
                    forall|r: u32, c: u32|
                        (r < row && c < self.width) || (r == row && c < column) ==> call_ensures(
                            shade,
                            (r, c),
                            #[trigger] pixels@[self.index_of(r as int, c as int)],
                        ),
                decreases self.width - column,
            {
                let ghost before = pixels@;
                let color = shade(row, column);
                pixels.push(color);
                proof {
                    assert forall|r: u32, c: u32|
                        (r < row && c < self.width) || (r == row && c < column + 1) implies call_ensures(
                        shade,
                        (r, c),
                        #[trigger] pixels@[self.index_of(r as int, c as int)],
                    ) by {
                        self.index_of_is_ordered(r as int, c as int, row as int, column as int);
                        if r == row && c == column {
                        } else {
                            assert(pixels@[self.index_of(r as int, c as int)]
                                == before[self.index_of(r as int, c as int)]);
                        }
                    }
                }
                column = column + 1;
            }
            proof {
                assert((row + 1) * self.width == row * self.width + self.width)
                    by (nonlinear_arith);
            }
            row = row + 1;
        }
        pixels
    }

    /// Writes the whole stream: the header, then one line for each pixel in
    /// the order of the list. The list must hold one pixel for each cell.
    pub fn encode(&self, pixels: &Vec<Color>) -> (stream: Result<String, StreamError>)
        ensures
            pixels@.len() == self.area() ==> stream is Ok && stream->Ok_0@ == self.stream_text(
                pixels@,
            ),
            pixels@.len() != self.area() ==> stream == Err::<String, StreamError>(
                StreamError::PixelCount,
            ),
    {
        assert(self.height * self.width <= u64::MAX) by (nonlinear_arith)
            requires
                self.width <= u32::MAX,
                self.height <= u32::MAX,
        ;
        let area: u64 = (self.height as u64) * (self.width as u64);
        if pixels.len() as u64 != area {
            return Err(StreamError::PixelCount);
        }
        let mut text = self.header();
        let mut done: usize = 0;
        while done < pixels.len()
            invariant
                done <= pixels@.len(),
                text@ == self.stream_text(pixels@.take(done as int)),
            decreases pixels@.len() - done,
        {
            let ghost before = text@;
            pixels[done].push_text(&mut text);
            proof {
                reveal_strlit("\n");
            }
            text.append("\n");
            proof {
                let next = pixels@.take(done + 1);
                assert(next.drop_last() =~= pixels@.take(done as int));
                assert(next.last() == pixels@[done as int]);
                assert(text@ =~= self.stream_text(next));
            }
            done = done + 1;
        }
        assert(pixels@.take(done as int) =~= pixels@);
        Ok(text)
    }

    /// In row-major order a pixel comes before another one exactly when its
    /// row is higher up, or the row is the same and its column further left.
    pub proof fn index_of_is_ordered(self, row: int, column: int, other_row: int, other_column: int)
        requires
            0 <= column < self.width,
            0 <= other_column < self.width,
            0 <= row,
            0 <= other_row,
        ensures
            self.index_of(row, column) < self.index_of(other_row, other_column) <==> (row
                < other_row || (row == other_row && column < other_column)),
            0 <= self.index_of(row, column),
            row < self.height ==> self.index_of(row, column) < self.area(),
    {
        let w = self.width as int;
        let h = self.height as int;
        assert(row < other_row ==> row * w + w <= other_row * w) by (nonlinear_arith)
            requires
                w > 0,
        ;
        assert(other_row < row ==> other_row * w + w <= row * w) by (nonlinear_arith)
            requires
                w > 0,
        ;
        assert(0 <= row * w) by (nonlinear_arith)
            requires
                w > 0,
                0 <= row,
        ;
        assert(row < h ==> row * w + w <= h * w) by (nonlinear_arith)
            requires
                w > 0,
                0 <= row,
        ;
    }
}

} // verus!

# toolbox

The verified core of a desktop toolbox for images, PDFs and videos.

- `src/` is the library, checked by Verus: file naming for outputs, batch
  bookkeeping and job cancellation, the rules applied to images (size
  limits, decoding of bytes held in memory, resize targets, quality, the
  logo pack, the palette sheet, lossless PNG optimization through oxipng),
  PDF to Markdown assembly on top of pdf-inspector, the qpdf and FFmpeg
  argument lists, and the decisions taken on each engine run.
- `app/` is ordinary Rust around it: reading and writing files, running
  qpdf, ffprobe and FFmpeg, image encoding and resampling, SVG rendering,
  the floating-point palette clustering, and the command entry points.
- `tests/` exercises the library with the outside crates linked.

# metafix_core

Metadata discovery for photo libraries, verified with Verus.

- `src/parser/exif/` decodes the EXIF (APP1) segment of a JPEG byte stream:
  the TIFF byte order, the signature, IFD0 and its entries.  The decoder is
  proved against `spec_exif_segment`, a byte-level statement of the format.
- `src/engine/` holds the decisions of a directory scan: which files are
  Google Takeout sidecars, which media file each sidecar describes, and which
  parser a media file goes to.
- `src/api/` holds the error type and the scan report.
- `app/` is the `metafix` command line: it walks the directory, reads the
  files, decodes the sidecar JSON, and hands everything to the library.

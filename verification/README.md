# ext_anydoc

Native PHP bindings for anydoc's document conversion, with the binding logic
verified in Verus.

- `src/format.rs` — the input formats, their public names, and how an
  extension, a path or the content resolves to one.
- `src/exception.rs` — the extension's exception classes and how a conversion
  failure or a panic becomes one of them.
- `src/source.rs` — anydoc's document model as plain values, with verified
  deep copies.
- `src/model.rs` — the readonly PHP model, built lazily from those values,
  with the PHP integer range checked where sizes and indices cross over.
- `app/` — the PHP extension itself: function and class registration, the
  anydoc calls guarded against panics, and PHP object construction.

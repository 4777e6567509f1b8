# opendal_adapter

An `object_store` 0.13 store over an OpenDAL `Operator`. The decisions it
makes on paths, ranges, errors, metadata, listings and writes are verified
by Verus; a few decisions of the request plumbing stay in `app/` (below).

- `src/` is the verified library:
  - `error` reports OpenDAL failures as `object_store` errors;
  - `path` turns locations into OpenDAL keys and listed keys back into
    locations spelled as the listing prefix was spelled, and orders
    locations for listings from an offset;
  - `range` computes the bytes a read returns and how a read proceeds once
    the object's size is known;
  - `meta` turns OpenDAL metadata and read conditions into their
    `object_store` and OpenDAL counterparts;
  - `write` plans conditional writes, multipart options and copy errors;
  - `listing` decides what each listed entry becomes and builds listings by
    delimiter;
  - `store` names the store.
- `app/` implements `object_store::ObjectStore` and `MultipartUpload`: it
  sends the requests to OpenDAL, drives the streams, and converts between the
  library's plain values and the two crates' types. These decisions are made
  there and are not verified: uploaded parts are written in the order they
  were handed in (a chain of one-shot channels); a listing stops at its first
  failed entry; a listing from an offset uses the backend's `start_after`
  where the backend has it, else filters a full listing with the library's
  offset order; the stream and I/O errors of a read body are reported as
  generic `IoError`s.
- `tests/` runs the library against the real `opendal`, `object_store` and
  `chrono` crates.

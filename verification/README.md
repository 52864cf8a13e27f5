# dnp3 application layer

The application layer of DNP3 (IEEE 1815) as a Verus library: parsing of
fragment headers and object headers, the objects of each variation, the
measurements they stand for, and the writing of requests.

- `src/util` — read and write cursors over byte buffers, with their
  little-endian encodings stated as functions on byte sequences.
- `src/app/parse` — the parser: each object header and each list of headers
  is a function of the bytes (`spec_parse_header`, `spec_parse_headers`), and
  the executable parser is proved to compute it.
- `src/app/gen` — protocol enumerations, the fixed-size objects with their
  encodings, the variations by qualifier, and their conversion into
  measurements.
- `src/app/format` — writing of request headers and object headers, and the
  proofs that what is written reads back.
- `src/app/{bit,bytes,count,range,parser,variations}` — the older interface of
  packed bits, octet strings and ranged sequences.
- `app/` — what stays outside the verified library: analog measurements
  (floating point), handing measurements to a user's handler, and the text of
  fragments for the log.

# mei

Query and unprovision Intel AMT through the Host Interface (IAMTHIF) client
of the Linux MEI driver.

- `src/` is the verified library: the little-endian wire fields (`wire`),
  request headers and the frames written per request (`message`), response
  checking and value extraction (`response`, `versions`, `report`), text
  decoding (`text`), code names (`names`), connect-client properties
  (`client`), the command line (`cli`) and how a refused response is
  reported (`report_error`).
- `app/main.rs` is the program: it opens `/dev/mei0`, issues the connect
  ioctl, writes the frames the library builds, reads replies and prints what
  the library decodes.

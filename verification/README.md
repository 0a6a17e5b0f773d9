# Ember Bridge

Desktop companion for the Ember web-based embroidery editor: a small,
token-protected REST API on `127.0.0.1:17831` that sends designs to WiFi
embroidery machines (Brother "pedxml" machines, and EmberConnect USB
dongles).

The decisions of the bridge live in `src/` as a library verified with
Verus; the I/O around them lives in `app/`.

## Layout

```
src/                verified library (crate `ember_bridge`)
  text.rs           trimming, substring search, decimal numbers
  machine/          neutral models and errors, the local-network rule,
                    retry policy, backend selection, discovery candidates
  brother/          pedxml wire format (byte-exact request bodies, tolerant
                    XML parsing) and the upload conversation's checks
  emberconnect/     dongle identity/storage/error mapping, pairing tokens,
                    the upload conversation (room check, re-pair on 401)
  dongle_setup/     USB setup channel: line framing and response matching
  server/           admission (Host + token), CORS, pairing, the job table,
                    request validation and what each route does
  config.rs         settings content and its edits; first-launch decision
  logging.rs        bounded log with sequence numbers
  shell.rs          tray and launch-at-login decisions
app/                HTTP server (axum), machine clients (reqwest), mDNS and
                    subnet discovery, serial I/O, files, desktop shell
tests/              tests of the library
```

## Guarantees proved

Among others: the API token is released to a browser at most once, only to
the origin that asked, only after the desktop user approved, and never after
two minutes; one pairing request is pending at a time; a request with a
non-loopback `Host` or without the token (outside health and the browser
side of pairing) is refused and changes nothing; upload targets are private
or link-local IPv4 addresses; a design is transmitted to a Brother machine
only after its format, the machine's size limit and its free memory were
checked, and to an EmberConnect dongle only after its card was seen to have
room; a dongle that refuses the token is paired again and, when an attempt
is left, the design sent once more; no two jobs in the table share an id;
retries are bounded and never repeat a rejection; pruning the job table never drops a
pending job; the log returns exactly the entries newer than the cursor.

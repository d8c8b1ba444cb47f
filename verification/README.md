# hbb_common streams

Streams over WebRTC data channels and over KCP, as a library verified with Verus.

- `src/` is the library: endpoints and the offers in them, the sessions that are kept, the order in
  which a connection is set up, what is done about the events of a connection, and what is sent and
  received. It does no I/O.
  - `endpoint`, `text`, `base64_text`: endpoints and their encoding
  - `description`, `session`: session descriptions, their JSON form, and sessions kept by offer
  - `setup`, `peer`: setting a peer connection up, and its events
  - `webrtc`, `webrtc_dummy`: the stream, and the one that stands in for it
  - `kcp_stream`, `kcp_io`: opening a KCP stream, and moving its packets
  - `buffer`, `address`, `error`: what the others share
- `app/` runs the library on real connections.
- `tests/` calls the library with concrete values.

What is believed of other crates stands in the items marked `external_body` and
`assume_specification`, in `text`, `base64_text`, `description` and `buffer`; each says what it
claims. The contracts named `law_..` are about several functions at once.

# media_remux

Remuxing of MPEG transport streams into fragmented MP4 (CMAF) segments, as a
Verus-verified library.

- `src/container/transport_stream`: transport packets, the program
  association and program map tables, PES packets and ADTS headers.
- `src/container/isobmff`: the ISO BMFF boxes, sample entries, descriptors
  and configuration records, each with a builder and, where the format is
  read too, a parser; NAL units.
- `src/container/remux`: the walk over a transport stream and the AAC and
  H.264 extractors that gather the stream's media.
- `src/container/writer`: the writer of init and media segments.
- `src/codec/h264`: the sequence parameter set.
- `src/util`: byte and bit readers.
- `app/`: an HTTP server that hands out the HLS output under `./output`.

Each public function states its result in its `ensures` clause; the laws
that tie builders and parsers together (what a builder writes, the parser
reads back) are public proof functions next to them.

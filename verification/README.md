# oxideav-nvidia

NVDEC and NVENC hardware decode and encode for oxideav pipelines, with the decisions
proved in Verus.

The driver is proprietary, loaded at run time, and answers as it likes. The library
therefore never calls it. Every operation is a machine: it asks for one driver call at
a time, is resumed with the reply, and says in its contract what follows each possible
reply. The host makes the calls.

- `src/` is the library.
  - `driver`, `resource`, `queue`, `text`, `error`, `frame`: the vocabulary.
  - `loader`, `memory`: which libraries and entry points there have to be, and which
    calls a process makes once.
  - `device`, `nvdec`: devices, contexts, decode capabilities.
  - `callback`, `decoder`: the parser's callbacks and the decoders.
  - `config`, `setup`, `encoder`, `drain`: encode sessions, the encoders, and the end of
    an encoded stream.
  - `report`, `engine`: the probe of all devices.
  - `nv12`: the layout of pictures.
  - `runs`: what whole runs of an operation come to.
  - `registration`: what is offered to the pipeline.
- `app/` is the host: it loads the driver, makes the calls, and implements the
  pipeline's traits.
- `tests/` runs the library against a driver made of memory.

Beside what each function ensures, the library states laws as public proof functions:
nothing that the driver hands out is leaked, whatever it replies; a decoder or an
encoder is made if and only if a fixed list of calls succeeds; pictures and packets
come out once each and in order; every device has its entry in the probe's report; a
picture that is uploaded and downloaded again is the same picture; a missing driver
always makes the pipeline fall back.

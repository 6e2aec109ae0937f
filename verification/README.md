# Desplio

Desplio turns networked devices into external monitors of a Linux host. This repository holds
the host daemon.

- `src/` is the library: what the daemon decides and computes, with contracts that Verus proves.
  It chooses a display backend, reads what `xrandr`, `cvt`, `busctl` and `ffmpeg` print, plans
  their commands, converts and judges captured frames, keeps the signalling session and its peers,
  and lays out the events of the virtual pointer.
- `app/` is the program around it: commands, devices, files, sockets and the network.
- `tests/` runs the library on concrete values.

Work that alternates with the outside is written as steps. A function of the library tells what to
do next, the program does it and hands the answer back; `StartStep`, `HandleStep`, `X11StartStep`,
`ActivationStep`, `Socket::on_incoming`, `VideoLoop` and `phases` are of this kind.

What is taken from other crates without proof stands in functions marked
`#[verifier::external_body]`, in `process`, `display::wayland_wlr`, `input`, `webrtc` and
`discovery`. Each says above it which function it calls and what it claims of it.

# myos

The core of a small ArceOS-based teaching kernel, written in Verus.

`src/` holds the kernel's decisions, each with a contract proved by Verus:

- `fd_table` – the per-process table of file descriptors, with laws on
  allocation, lookup and closing;
- `fs`, `fs_calls` – file types, `stat` records and the decisions of the
  file system calls (where a read or write goes, `open` flags, `writev`,
  reading a path from user memory);
- `elf`, `aux` – what the loader reads of an ELF image, through `xmas_elf`
  and `kernel_elf_parser`, from a copy of the image aligned for them;
- `loader`, `image` – placing, mapping, copying and zero-filling segments,
  the interpreter path, the auxiliary vector, the initial stack, and the
  whole plan of loading a program, which maps each segment before a later
  failure is reported, as the kernel does;
- `mm`, `page` – page arithmetic and the decisions of `brk`, `mmap` and
  `munmap`;
- `task`, `misc` – a new process's layout, the page-fault decision, the
  record that `uname` reports, the clock that `clock_gettime` reads, and
  the system calls that are not implemented yet.

`app/` is the kernel image itself: it reads files, touches user memory and
page tables, switches address spaces and runs the decisions of `src/`.

# judger

A sandboxed judge for programming submissions, verified with Verus.

- `src/` is the verified library: the compile job for a submission and how its outcome is
  read (`compiler`), the choice and reading of settings (`config`), the resource limits, the
  seccomp policy and the decisions of the forked child, the supervising parent and its watchdog
  thread (`container`), and the values of the HTTP endpoint (`server`).
- `app/` is the server itself: it forks, opens and redirects files, starts threads, calls
  `execve` and serves HTTP, asking the library at each step what to do next.
- `tests/` exercises the library on concrete values.

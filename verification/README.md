# dreambo_motor_controller

Motor control for the Dreambo robot: Feetech servos on a serial bus (arms:
SM40BL, ids 1–4; nose: STS3025BL, ids 5–7) and three Damiao motors on a CAN
bus (neck yaw, pitch, roll).

- `src/` is the verified library: servo ids and names, the split of a request
  into sync writes per servo family, ping rounds and reboot outcomes, retry
  decisions, the start-up sequence of the control loop and its running
  decisions (what to keep after a position read, when to stop), the
  `MotorError` messages, the PID register
  codec, and the layout of per-servo values. Each function carries its
  contract; the `lemma_*` proof functions state the properties that span
  several calls.
- `app/` is the I/O around it: the serial and CAN controller, the control
  loop thread and the Python module. It performs the bus work and asks the
  library what to do with the results.
- `tests/` exercises the library on concrete values.

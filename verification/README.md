# ext4_compat

The verified core of ArceOS's ext4 layer, written in Verus.

`src/` holds every decision that the layer takes around the ext4 engine
(`lwext4_core`), the block device and the clock: how engine errors become
Linux error numbers and VFS errors, how inode types map to directory-entry
bytes and VFS node types, the directory reader, inode attributes, the mode of
new inodes, size changes, reads that fall into holes of sparse files, where a
symbolic link's target lives, and the bounds checks of block transfers.

`app/` wires these decisions to the engine, the ArceOS block device and the
clock; it makes the calls and holds no logic of its own.

`tests/` runs the library on concrete values.
